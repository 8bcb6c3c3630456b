#[test]
fn test_pager_command_parsing() {
    let pager_command = "less -RF";
    let parts: Vec<&str> = pager_command.split_whitespace().collect();
    assert_eq!(parts[0], "less");
    assert_eq!(parts[1], "-RF");

    let pager_command = "bat";
    let parts: Vec<&str> = pager_command.split_whitespace().collect();
    assert_eq!(parts.len(), 1);
    assert_eq!(parts[0], "bat");
}

#[test]
fn test_pager_command_format() {
    let test_cases = vec![
        ("less -RF", vec!["less", "-RF"]),
        ("bat --style=numbers", vec!["bat", "--style=numbers"]),
        ("more", vec!["more"]),
    ];
    for (command, expected) in test_cases {
        let parts: Vec<&str> = command.split_whitespace().collect();
        assert_eq!(parts, expected);
    }
}
