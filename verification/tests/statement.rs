use mysql_dump::statement::StatementAssembler;

#[test]
fn assembles_a_create_table_statement() {
    let mut a = StatementAssembler::new();
    assert_eq!(a.feed_line("CREATE TABLE `users` (\n"), None);
    assert_eq!(a.feed_line("  `id` bigint NOT NULL,"), None);
    assert_eq!(a.feed_line("  KEY `name_index` (`name`(10),`id`)"), None);
    assert_eq!(
        a.feed_line(") ENGINE=InnoDB ROW_FORMAT=DYNAMIC;\r\n"),
        Some("CREATE TABLE `users` (`id` bigint NOT NULL,KEY `name_index` (`name`,`id`)) ENGINE=InnoDB;".to_string())
    );
}

#[test]
fn first_create_table_line_is_not_cleaned() {
    let mut a = StatementAssembler::new();
    assert_eq!(
        a.feed_line("CREATE TABLE `k` (KEY `a` (`b`(3)));"),
        Some("CREATE TABLE `k` (KEY `a` (`b`(3)));".to_string())
    );
}

#[test]
fn insert_statements_pass_through() {
    let mut a = StatementAssembler::new();
    assert_eq!(
        a.feed_line("  INSERT INTO `t` VALUES (1,'a'),(2,'b');  "),
        Some("INSERT INTO `t` VALUES (1,'a'),(2,'b');".to_string())
    );
}

#[test]
fn comments_and_blank_lines_are_ignored() {
    let mut a = StatementAssembler::new();
    assert_eq!(a.feed_line("-- MySQL dump 10.13"), None);
    assert_eq!(a.feed_line("/*!40101 SET NAMES utf8mb4 */;"), None);
    assert_eq!(a.feed_line("   \t "), None);
    assert_eq!(a.feed_line(""), None);
    assert_eq!(a.feed_line("INSERT INTO `t` VALUES (1);"), Some("INSERT INTO `t` VALUES (1);".to_string()));
}

#[test]
fn other_statements_are_dropped() {
    let mut a = StatementAssembler::new();
    assert_eq!(a.feed_line("DROP TABLE IF EXISTS `t`;"), None);
    assert_eq!(a.feed_line("LOCK TABLES `t` WRITE;"), None);
    assert_eq!(a.feed_line("INSERT INTO `t` VALUES"), None);
    assert_eq!(a.feed_line("(1);"), Some("INSERT INTO `t` VALUES(1);".to_string()));
}

#[test]
fn unicode_white_space_is_trimmed() {
    let mut a = StatementAssembler::new();
    assert_eq!(
        a.feed_line("\u{3000}INSERT INTO t VALUES (1);\u{a0}"),
        Some("INSERT INTO t VALUES (1);".to_string())
    );
}
