use jirafs::cli::{parse_bool, parse_u64, parse_usize, parse_workspace_override};

#[test]
fn numbers() {
    assert_eq!(parse_u64("0"), Ok(0));
    assert_eq!(parse_u64("250"), Ok(250));
    assert_eq!(parse_u64("+7"), Ok(7));
    assert_eq!(parse_u64("007"), Ok(7));
    assert_eq!(parse_u64("18446744073709551615"), Ok(u64::MAX));
    for bad in ["", "+", "-1", " 1", "1 ", "1_000", "0x10", "1.5", "18446744073709551616", "++1"] {
        assert_eq!(
            parse_u64(bad),
            Err(format!("invalid integer value: {}", bad)),
            "{:?}",
            bad
        );
    }
    assert_eq!(parse_usize("250"), Ok(250));
    assert_eq!(parse_usize(&usize::MAX.to_string()), Ok(usize::MAX));
    assert_eq!(
        parse_usize("99999999999999999999999"),
        Err("invalid integer value: 99999999999999999999999".to_string())
    );
    assert_eq!(parse_usize("x"), Err("invalid integer value: x".to_string()));
}

#[test]
fn truth_values() {
    for word in ["1", "true", "TRUE", " yes ", "On", "\ttrue\n"] {
        assert_eq!(parse_bool(word), Ok(true), "{:?}", word);
    }
    for word in ["0", "false", "False", "no", "OFF "] {
        assert_eq!(parse_bool(word), Ok(false), "{:?}", word);
    }
    for word in ["", "2", "y", "enabled", "tr ue"] {
        assert_eq!(
            parse_bool(word),
            Err(format!("invalid boolean value: {}", word)),
            "{:?}",
            word
        );
    }
}

#[test]
fn workspace_overrides() {
    assert_eq!(
        parse_workspace_override("default=project in (PROJ, OPS) ORDER BY updated DESC"),
        Ok((
            "default".to_string(),
            "project in (PROJ, OPS) ORDER BY updated DESC".to_string()
        ))
    );
    assert_eq!(
        parse_workspace_override("eng=project = ENG"),
        Ok(("eng".to_string(), "project = ENG".to_string()))
    );
    assert_eq!(
        parse_workspace_override("  a  =  b  "),
        Ok(("a".to_string(), "b".to_string()))
    );
    assert_eq!(
        parse_workspace_override("no separator"),
        Err("invalid workspace override 'no separator': expected <name=jql>".to_string())
    );
    assert_eq!(
        parse_workspace_override(""),
        Err("invalid workspace override '': expected <name=jql>".to_string())
    );
    assert_eq!(
        parse_workspace_override(" =jql"),
        Err("workspace name in --jira-workspace must not be empty".to_string())
    );
    assert_eq!(
        parse_workspace_override("name= "),
        Err("workspace jql for 'name' must not be empty".to_string())
    );
    assert_eq!(
        parse_workspace_override("="),
        Err("workspace name in --jira-workspace must not be empty".to_string())
    );
}
