use mysql_dump::cleanup::{cleanup_create_table, cleanup_key};

#[test]
fn cleanup() {
    assert_eq!(
        cleanup_key("KEY `facebookConnectId_index` (`facebookConnectId`)"),
        "KEY `facebookConnectId_index` (`facebookConnectId`)"
    );
    assert_eq!(
        cleanup_key("KEY `facebookConnectId_index` (`facebookConnectId`(144))"),
        "KEY `facebookConnectId_index` (`facebookConnectId`)"
    );
    assert_eq!(
        cleanup_key("KEY `facebookConnectId_index` (`facebookConnectId`(144),`plop`)"),
        "KEY `facebookConnectId_index` (`facebookConnectId`,`plop`)"
    );
    assert_eq!(
        cleanup_key("KEY `facebookConnectId_index` (`facebookConnectId`(144),`plop`(12))"),
        "KEY `facebookConnectId_index` (`facebookConnectId`,`plop`)"
    );
    assert_eq!(
        cleanup_key("KEY `facebookConnectId_index` (`facebookConnectId`,`plop`(12))"),
        "KEY `facebookConnectId_index` (`facebookConnectId`,`plop`)"
    );
    assert_eq!(
        cleanup_key("FOREIGN KEY (`facebookConnectId`)"),
        "FOREIGN KEY (`facebookConnectId`)"
    );
    assert_eq!(
        cleanup_key("FOREIGN KEY (`facebookConnectId`(144))"),
        "FOREIGN KEY (`facebookConnectId`)"
    );
}

#[test]
fn cleanup_key_leaves_other_lines_alone() {
    assert_eq!(cleanup_key("`name` varchar(255) NOT NULL,"), "`name` varchar(255) NOT NULL,");
    assert_eq!(cleanup_key("`x` decimal(10,(2))"), "`x` decimal(10,(2))");
    assert_eq!(cleanup_key(""), "");
}

#[test]
fn cleanup_key_is_idempotent_on_examples() {
    for line in [
        "KEY `k` (`a`(144),`b`(12))",
        "KEY `k` ((`a`(1)))",
        "KEY ))((x",
        "UNIQUE KEY `u` (`c`(3),`d`)",
    ] {
        let once = cleanup_key(line);
        assert_eq!(cleanup_key(&once), once);
    }
}

#[test]
fn cleanup_key_drops_deeper_groups() {
    assert_eq!(cleanup_key("KEY `k` ((`a`(1)))"), "KEY `k` ()");
    assert_eq!(cleanup_key("KEY `k` (`ä`(7))"), "KEY `k` (`ä`)");
}

#[test]
fn cleanup_create_table_removes_row_format() {
    assert_eq!(
        cleanup_create_table("CREATE TABLE `t` (`id` int) ENGINE=InnoDB ROW_FORMAT=DYNAMIC;"),
        "CREATE TABLE `t` (`id` int) ENGINE=InnoDB;"
    );
    assert_eq!(
        cleanup_create_table("CREATE TABLE `t` (`id` int) ROW_FORMAT=COMPACT COMMENT='x';"),
        "CREATE TABLE `t` (`id` int) COMMENT='x';"
    );
    assert_eq!(
        cleanup_create_table("CREATE TABLE `t` (`id` int) ROW_FORMAT=DYNAMIC"),
        "CREATE TABLE `t` (`id` int)"
    );
}

#[test]
fn cleanup_create_table_without_row_format_is_unchanged() {
    let stmt = "CREATE TABLE `t` (`id` int) ENGINE=InnoDB DEFAULT CHARSET=utf8mb4;";
    assert_eq!(cleanup_create_table(stmt), stmt);
}

#[test]
fn cleanup_create_table_removes_only_the_first_row_format() {
    assert_eq!(
        cleanup_create_table("CREATE TABLE t (a int) ROW_FORMAT=A ROW_FORMAT=B;"),
        "CREATE TABLE t (a int) ROW_FORMAT=B;"
    );
}

#[test]
fn cleaning_a_single_row_format_twice_changes_nothing() {
    for stmt in [
        "CREATE TABLE `t` (`id` int) ENGINE=InnoDB ROW_FORMAT=DYNAMIC;",
        "CREATE TABLE `t` (`id` int) ROW_FORMAT=COMPACT COMMENT='x';",
        "CREATE TABLE `t` (`id` int);",
    ] {
        let once = cleanup_create_table(stmt);
        assert!(!once.contains(" ROW_FORMAT="));
        assert_eq!(cleanup_create_table(&once), once);
        assert!(once.len() <= stmt.len());
    }
}
