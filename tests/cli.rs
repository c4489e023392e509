use trtodo::cli::{CategoryCommands, Cli, CliError, Commands, ConfigCommands, Priority};

fn try_parse_args(args: &[&str]) -> Result<Cli, CliError> {
    let v: Vec<String> = args.iter().map(|s| s.to_string()).collect();
    Cli::try_parse_from(&v)
}

fn parse_args(args: &[&str]) -> Cli {
    try_parse_args(args).expect("command line should parse")
}

#[test]
fn test_add_task() {
    let cli = parse_args(&["trtodo", "add", "Buy milk", "--category", "Home"]);
    match cli.command {
        Commands::Add { title, category, priority } => {
            assert_eq!(title, "Buy milk");
            assert_eq!(category, "Home");
            assert!(priority.is_none());
        }
        _ => panic!("Expected Add command"),
    }

    let cli = parse_args(&["trtodo", "add", "Buy milk", "--category", "Home", "--priority", "high"]);
    match cli.command {
        Commands::Add { title, category, priority } => {
            assert_eq!(title, "Buy milk");
            assert_eq!(category, "Home");
            assert_eq!(priority, Some(Priority::High));
        }
        _ => panic!("Expected Add command"),
    }
}

#[test]
fn test_list_tasks() {
    let cli = parse_args(&["trtodo", "list"]);
    match cli.command {
        Commands::List { search, completed, priority } => {
            assert!(search.is_none());
            assert!(!completed);
            assert!(priority.is_none());
        }
        _ => panic!("Expected List command"),
    }

    let cli = parse_args(&["trtodo", "list", "--search", "milk", "--completed", "--priority", "low"]);
    match cli.command {
        Commands::List { search, completed, priority } => {
            assert_eq!(search, Some("milk".to_string()));
            assert!(completed);
            assert_eq!(priority, Some(Priority::Low));
        }
        _ => panic!("Expected List command"),
    }
}

#[test]
fn test_category_commands() {
    let cli = parse_args(&["trtodo", "category", "use", "Home"]);
    match cli.command {
        Commands::Category { command } => match command {
            CategoryCommands::Use { category } => {
                assert_eq!(category, "Home");
            }
            _ => panic!("Expected Category Use command"),
        },
        _ => panic!("Expected Category command"),
    }

    let cli = parse_args(&["trtodo", "category", "list"]);
    match cli.command {
        Commands::Category { command } => match command {
            CategoryCommands::List => {}
            _ => panic!("Expected Category List command"),
        },
        _ => panic!("Expected Category command"),
    }
}

#[test]
fn test_config_commands() {
    let cli = parse_args(&["trtodo", "config", "set", "storage.type=json"]);
    match cli.command {
        Commands::Config { command } => match command {
            ConfigCommands::SetValue { key_value } => {
                assert_eq!(key_value, "storage.type=json");
            }
            _ => panic!("Expected Config Set command"),
        },
        _ => panic!("Expected Config command"),
    }

    let cli = parse_args(&["trtodo", "config", "reset"]);
    match cli.command {
        Commands::Config { command } => match command {
            ConfigCommands::Reset => {}
            _ => panic!("Expected Config Reset command"),
        },
        _ => panic!("Expected Config command"),
    }

    let cli = parse_args(&["trtodo", "config", "list"]);
    match cli.command {
        Commands::Config { command } => match command {
            ConfigCommands::List => {}
            _ => panic!("Expected Config List command"),
        },
        _ => panic!("Expected Config command"),
    }
}

#[test]
fn test_required_arguments() {
    let result = try_parse_args(&["trtodo", "add", "Buy milk"]);
    assert!(result.is_err());

    let result = try_parse_args(&["trtodo", "add", "Buy milk", "--category", "Home", "--priority", "invalid"]);
    assert!(result.is_err());
}

#[test]
fn test_command_aliases() {
    let cli = parse_args(&["trtodo", "x", "Buy milk", "--category", "Home"]);
    match cli.command {
        Commands::Check { title_or_id, category } => {
            assert_eq!(title_or_id, "Buy milk");
            assert_eq!(category, Some("Home".to_string()));
        }
        _ => panic!("Expected Check command"),
    }

    let cli = parse_args(&["trtodo", "mark", "Buy milk", "--category", "Home"]);
    match cli.command {
        Commands::Check { title_or_id, category } => {
            assert_eq!(title_or_id, "Buy milk");
            assert_eq!(category, Some("Home".to_string()));
        }
        _ => panic!("Expected Check command"),
    }

    let cli = parse_args(&["trtodo", "o", "Buy milk", "--category", "Home"]);
    match cli.command {
        Commands::Uncheck { title_or_id, category } => {
            assert_eq!(title_or_id, "Buy milk");
            assert_eq!(category, Some("Home".to_string()));
        }
        _ => panic!("Expected Uncheck command"),
    }

    let cli = parse_args(&["trtodo", "unmark", "Buy milk", "--category", "Home"]);
    match cli.command {
        Commands::Uncheck { title_or_id, category } => {
            assert_eq!(title_or_id, "Buy milk");
            assert_eq!(category, Some("Home".to_string()));
        }
        _ => panic!("Expected Uncheck command"),
    }
}

#[test]
fn test_move_commands() {
    let cli = parse_args(&["trtodo", "move", "Buy milk", "--to", "Shopping"]);
    match cli.command {
        Commands::Move { task_name_or_id, to_category, from_category, task } => {
            assert_eq!(task_name_or_id, Some("Buy milk".to_string()));
            assert_eq!(to_category, Some("Shopping".to_string()));
            assert!(from_category.is_none());
            assert!(task.is_none());
        }
        _ => panic!("Expected Move command"),
    }

    let cli = parse_args(&["trtodo", "move", "--from", "Home", "--to", "Shopping", "--task", "Buy milk"]);
    match cli.command {
        Commands::Move { task_name_or_id, to_category, from_category, task } => {
            assert!(task_name_or_id.is_none());
            assert_eq!(to_category, Some("Shopping".to_string()));
            assert_eq!(from_category, Some("Home".to_string()));
            assert_eq!(task, Some("Buy milk".to_string()));
        }
        _ => panic!("Expected Move command"),
    }

    let cli = parse_args(&["trtodo", "move", "--from", "Home", "--task", "Buy milk"]);
    match cli.command {
        Commands::Move { task_name_or_id, to_category, from_category, task } => {
            assert!(task_name_or_id.is_none());
            assert!(to_category.is_none());
            assert_eq!(from_category, Some("Home".to_string()));
            assert_eq!(task, Some("Buy milk".to_string()));
        }
        _ => panic!("Expected Move command"),
    }
}

#[test]
fn cli_option_forms_and_errors() {
    let cli = parse_args(&["trtodo", "add", "--priority=medium", "-c", "Work", "Write report"]);
    match cli.command {
        Commands::Add { title, category, priority } => {
            assert_eq!(title, "Write report");
            assert_eq!(category, "Work");
            assert_eq!(priority, Some(Priority::Medium));
        }
        _ => panic!("Expected Add command"),
    }
    assert!(matches!(try_parse_args(&["trtodo"]), Err(CliError::MissingCommand)));
    assert!(matches!(try_parse_args(&["trtodo", "frobnicate"]), Err(CliError::UnknownCommand(_))));
    assert!(matches!(try_parse_args(&["trtodo", "list", "--bogus"]), Err(CliError::UnknownOption(_))));
    assert!(matches!(try_parse_args(&["trtodo", "list", "--search"]), Err(CliError::MissingValue(_))));
    assert!(matches!(try_parse_args(&["trtodo", "list", "--completed=yes"]), Err(CliError::UnexpectedValue(_))));
    assert!(matches!(
        try_parse_args(&["trtodo", "list", "-s", "a", "--search", "b"]),
        Err(CliError::RepeatedOption(_))
    ));
    assert!(matches!(try_parse_args(&["trtodo", "flush", "extra"]), Err(CliError::UnexpectedArgument(_))));
}

#[test]
fn cli_category_subcommands() {
    match parse_args(&["trtodo", "category", "order", "Home", "3"]).command {
        Commands::Category { command: CategoryCommands::Order { category, position } } => {
            assert_eq!(category, "Home");
            assert_eq!(position, 3);
        }
        _ => panic!("Expected Category Order command"),
    }
    match parse_args(&["trtodo", "category", "reorder", "Work", "Home"]).command {
        Commands::Category { command: CategoryCommands::Reorder { categories } } => {
            assert_eq!(categories, vec!["Work".to_string(), "Home".to_string()]);
        }
        _ => panic!("Expected Category Reorder command"),
    }
    match parse_args(&["trtodo", "category", "delete", "Home", "-n", "Work"]).command {
        Commands::Category { command: CategoryCommands::Delete { name_or_id, new_category } } => {
            assert_eq!(name_or_id, "Home");
            assert_eq!(new_category, Some("Work".to_string()));
        }
        _ => panic!("Expected Category Delete command"),
    }
    assert!(try_parse_args(&["trtodo", "category", "order", "Home", "first"]).is_err());
    assert!(matches!(
        try_parse_args(&["trtodo", "category", "rename", "a"]),
        Err(CliError::UnknownCommand(_))
    ));
}
