use twitch_dashboard::payload::payload_entries;

#[test]
fn list_files_hold_one_entry_per_line() {
    assert_eq!(payload_entries(""), Vec::<String>::new());
    assert_eq!(payload_entries("danielhe4rt"), vec!["danielhe4rt".to_string()]);
    assert_eq!(
        payload_entries("  alpha \r\n\n\t beta gamma\t\n   \nomega\n"),
        vec!["alpha".to_string(), "beta gamma".to_string(), "omega".to_string()]
    );
    assert_eq!(payload_entries("\n\n \r\n"), Vec::<String>::new());
    assert_eq!(payload_entries("olá\nmundo"), vec!["olá".to_string(), "mundo".to_string()]);
}
