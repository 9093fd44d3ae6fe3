use openwarp::slash_commands::{
    is_allowed_in_cli_agent_input, prefix_match_coverage, query_text, repository_lookup_path,
    select_offered_commands, session_context, triggers_recompute, Availability, DataSourceEvent,
    SessionSignals, SlashCommandState, StaticCommand, skill_icon, skill_item_name, MenuIcon,
    SkillProvider, skill_shown, skills_searched, trim, InlineItem, SkillDescriptor, ItemIcon,
    AcceptSlashCommandOrSavedPrompt, FuzzyMatchResult, MatchOutcome, listed_candidates, is_listed,
};

fn signals() -> SessionSignals {
    SessionSignals {
        agent_view_feature_enabled: true,
        is_agent_view_active: false,
        is_local_session: true,
        cwd_in_repository: true,
        is_agent_in_control: false,
        has_active_conversation: false,
        is_any_ai_enabled: true,
    }
}

fn command(id: u64, name: &str, availability: Availability) -> StaticCommand {
    StaticCommand {
        id,
        name: name.to_string(),
        description: format!("runs {name}"),
        icon_path: "icon.svg".to_string(),
        availability,
    }
}

fn needs(f: impl Fn(&mut Availability)) -> Availability {
    let mut a = Availability::empty();
    f(&mut a);
    a
}

fn registry() -> Vec<StaticCommand> {
    vec![
        command(1, "/prompts", Availability::empty()),
        command(2, "/skills", needs(|a| a.ai_enabled = true)),
        command(3, "/agent", needs(|a| a.agent_view = true)),
        command(4, "/terminal", needs(|a| a.terminal_view = true)),
        command(5, "/pr", needs(|a| {
            a.repository = true;
            a.local = true;
        })),
        command(6, "/continue", needs(|a| a.active_conversation = true)),
    ]
}

fn names(commands: &[StaticCommand]) -> Vec<&str> {
    commands.iter().map(|c| c.name.as_str()).collect()
}

#[test]
fn context_sets_the_view_of_the_terminal() {
    let ctx = session_context(&signals());
    assert!(ctx.terminal_view && !ctx.agent_view);
    assert!(ctx.local && ctx.repository && ctx.no_lrc_control && ctx.ai_enabled);
    assert!(!ctx.active_conversation);

    let mut s = signals();
    s.is_agent_view_active = true;
    let ctx = session_context(&s);
    assert!(ctx.agent_view && !ctx.terminal_view && ctx.active_conversation);
}

#[test]
fn context_sets_both_views_when_the_feature_is_off() {
    let mut s = signals();
    s.agent_view_feature_enabled = false;
    let ctx = session_context(&s);
    assert!(ctx.agent_view && ctx.terminal_view);
}

#[test]
fn repository_needs_a_local_session() {
    let mut s = signals();
    s.is_local_session = false;
    let ctx = session_context(&s);
    assert!(!ctx.local && !ctx.repository);
    s.is_local_session = true;
    s.cwd_in_repository = false;
    assert!(!session_context(&s).repository);
    s.is_agent_in_control = true;
    assert!(!session_context(&s).no_lrc_control);
}

#[test]
fn offered_commands_follow_the_context() {
    let reg = registry();
    let ctx = session_context(&signals());
    let offered = select_offered_commands(&reg, &ctx, false);
    assert_eq!(names(&offered), vec!["/prompts", "/skills", "/terminal", "/pr"]);
}

#[test]
fn cli_agent_input_restricts_to_the_allowlist() {
    let reg = registry();
    let ctx = session_context(&signals());
    let offered = select_offered_commands(&reg, &ctx, true);
    assert_eq!(names(&offered), vec!["/prompts", "/skills"]);
    assert!(is_allowed_in_cli_agent_input("/prompts"));
    assert!(is_allowed_in_cli_agent_input("/skills"));
    assert!(!is_allowed_in_cli_agent_input("/pr"));
    assert!(!is_allowed_in_cli_agent_input("prompts"));
}

#[test]
fn state_recomputes_and_announces_changes_of_count() {
    let reg = registry();
    let (mut state, _) = SlashCommandState::new(3, &reg, &signals(), false);
    assert_eq!(names(state.active_commands()), vec!["/prompts", "/skills", "/terminal", "/pr"]);
    assert!(state.command_is_active("/pr"));
    assert!(!state.command_is_active("/agent"));

    // Same signals: same commands, nothing announced.
    assert!(state.recompute_active_commands(&reg, &signals(), false).is_none());

    let mut s = signals();
    s.is_agent_view_active = true;
    // /terminal leaves, /agent and /continue join: the count changes.
    assert!(state.recompute_active_commands(&reg, &s, false).is_some());
    assert!(state.command_is_active("/agent"));
    assert!(!state.command_is_active("/terminal"));
}

#[test]
fn setting_the_same_repo_root_again_changes_nothing() {
    let reg = registry();
    let (mut state, _) = SlashCommandState::new(3, &reg, &signals(), false);
    let mut s = signals();
    s.cwd_in_repository = false;
    assert!(state.set_active_repo_root(Some("/repo".to_string()), &reg, &s, false).is_some());
    assert!(!state.command_is_active("/pr"));
    // The same root again: no recompute, even though the signals changed.
    assert!(state.set_active_repo_root(Some("/repo".to_string()), &reg, &signals(), false).is_none());
    assert!(!state.command_is_active("/pr"));
    assert!(state.set_active_repo_root(None, &reg, &signals(), false).is_some());
    assert!(state.command_is_active("/pr"));
}

#[test]
fn recompute_triggers() {
    assert!(triggers_recompute(&DataSourceEvent::ActiveSessionUpdatedPwd, 3));
    assert!(triggers_recompute(&DataSourceEvent::ActiveSessionBootstrapped, 3));
    assert!(triggers_recompute(&DataSourceEvent::SubagentUpdatedControl, 3));
    assert!(!triggers_recompute(&DataSourceEvent::SubagentOther, 3));
    assert!(triggers_recompute(&DataSourceEvent::ExitedAgentView, 3));
    assert!(!triggers_recompute(&DataSourceEvent::AgentViewOther, 3));
    assert!(triggers_recompute(&DataSourceEvent::AnyAIEnabledChanged, 3));
    assert!(!triggers_recompute(&DataSourceEvent::AISettingsOther, 3));
    assert!(triggers_recompute(&DataSourceEvent::SlashCommandsInTerminalChanged, 3));
    assert!(!triggers_recompute(&DataSourceEvent::InputSettingsOther, 3));
    assert!(triggers_recompute(
        &DataSourceEvent::CLIInputSessionChanged { terminal_view_id: 3 },
        3
    ));
    assert!(!triggers_recompute(
        &DataSourceEvent::CLIInputSessionChanged { terminal_view_id: 4 },
        3
    ));
    assert!(!triggers_recompute(&DataSourceEvent::CLISessionsOther, 3));
}

#[test]
fn repository_lookup_prefers_the_converted_path() {
    assert_eq!(repository_lookup_path(None, Some("C:\\x".to_string())), None);
    assert_eq!(
        repository_lookup_path(Some("/c/Users/me"), Some("C:\\Users\\me".to_string())),
        Some("C:\\Users\\me".to_string())
    );
    assert_eq!(
        repository_lookup_path(Some("/home/me"), None),
        Some("/home/me".to_string())
    );
}

#[test]
fn prefix_coverage_measures_the_stripped_name() {
    assert_eq!(prefix_match_coverage("new", "/new"), Some((3, 3)));
    assert_eq!(prefix_match_coverage("new", "/New-Project"), Some((3, 11)));
    assert_eq!(prefix_match_coverage("new", "/create-new-project"), None);
    assert_eq!(prefix_match_coverage("pr", "prompts"), Some((2, 7)));
    assert_eq!(prefix_match_coverage("vé", "/Vérifier"), Some((3, 9)));
}

#[test]
fn query_text_trims_and_lowers() {
    assert_eq!(query_text(""), None);
    assert_eq!(query_text("  New "), Some("new".to_string()));
    assert_eq!(query_text("   "), Some(String::new()));
}

#[test]
fn skill_items_show_the_provider_logo() {
    assert!(matches!(skill_icon(None, &SkillProvider::Claude), MenuIcon::ClaudeLogo));
    assert!(matches!(skill_icon(None, &SkillProvider::Codex), MenuIcon::OpenAILogo));
    assert!(matches!(skill_icon(None, &SkillProvider::Other), MenuIcon::Zap));
    assert!(matches!(
        skill_icon(Some(MenuIcon::GeminiLogo), &SkillProvider::Claude),
        MenuIcon::GeminiLogo
    ));
    assert_eq!(skill_item_name("figma-create"), "/figma-create");
}

#[test]
fn new_announces_the_first_commands() {
    let reg = registry();
    let (state, announce) = SlashCommandState::new(3, &reg, &signals(), false);
    assert!(announce.is_some());
    assert_eq!(state.active_commands().len(), 4);
    let (state, announce) = SlashCommandState::new(3, &Vec::new(), &signals(), false);
    assert!(announce.is_none());
    assert!(state.active_commands().is_empty());
}

#[test]
fn events_recompute_only_when_they_concern_the_terminal() {
    let reg = registry();
    let (mut state, _) = SlashCommandState::new(3, &reg, &signals(), false);
    let mut s = signals();
    s.is_agent_view_active = true;
    // An event that triggers nothing leaves the commands as they are.
    assert!(state.handle_event(&DataSourceEvent::AgentViewOther, &reg, &s, false).is_none());
    assert!(state.command_is_active("/terminal"));
    // Another terminal's CLI input changed: nothing happens.
    let other = DataSourceEvent::CLIInputSessionChanged { terminal_view_id: 4 };
    assert!(state.handle_event(&other, &reg, &s, false).is_none());
    assert!(state.command_is_active("/terminal"));
    // Entering the agent view recomputes.
    assert!(state.handle_event(&DataSourceEvent::EnteredAgentView, &reg, &s, false).is_some());
    assert!(state.command_is_active("/agent"));
    assert!(!state.command_is_active("/terminal"));
    // This terminal's CLI input opened: only the allowlist stays.
    let own = DataSourceEvent::CLIInputSessionChanged { terminal_view_id: 3 };
    assert!(state.handle_event(&own, &reg, &s, true).is_some());
    assert_eq!(names(state.active_commands()), vec!["/prompts", "/skills"]);
}

#[test]
fn repo_roots_compare_as_paths() {
    let reg = registry();
    let (mut state, _) = SlashCommandState::new(3, &reg, &signals(), false);
    let mut s = signals();
    s.cwd_in_repository = false;
    assert!(state.set_active_repo_root(Some("/repo".to_string()), &reg, &s, false).is_some());
    // The same directory with a trailing slash is the same root.
    assert!(state.set_active_repo_root(Some("/repo/".to_string()), &reg, &signals(), false).is_none());
    assert!(!state.command_is_active("/pr"));
    assert!(state.set_active_repo_root(Some("/other".to_string()), &reg, &signals(), false).is_some());
    assert!(state.command_is_active("/pr"));
    let before = names(state.active_commands()).len();
    assert!(state
        .update_active_repo_root(Some("/x".to_string()), true, &reg, &s, false)
        .is_none());
    assert_eq!(names(state.active_commands()).len(), before);
}

#[test]
fn offered_commands_keep_distinct_ids() {
    let reg = registry();
    let ctx = session_context(&signals());
    let offered = select_offered_commands(&reg, &ctx, false);
    let ids: Vec<u64> = offered.iter().map(|c| c.id).collect();
    assert_eq!(ids, vec![1, 2, 4, 5]);
}

#[test]
fn skills_follow_the_flags_and_the_cli_providers() {
    assert!(skills_searched(true, true));
    assert!(!skills_searched(true, false));
    assert!(!skills_searched(false, true));
    assert!(skill_shown(false, false));
    assert!(skill_shown(true, true));
    assert!(!skill_shown(true, false));
}

#[test]
fn trim_strips_unicode_white_space() {
    assert_eq!(trim("  a b\t\n"), "a b");
    assert_eq!(trim("\u{3000}x\u{A0}"), "x");
    assert_eq!(trim("\u{200B}x"), "\u{200B}x");
    assert_eq!(trim(" \r\n "), "");
    assert_eq!(query_text("\u{2003}Prompts"), Some("prompts".to_string()));
}

#[test]
fn repo_roots_that_differ_are_recorded() {
    let reg = registry();
    let (mut state, _) = SlashCommandState::new(3, &reg, &signals(), false);
    let mut s = signals();
    s.cwd_in_repository = false;
    assert!(state.set_active_repo_root(Some("/repo1".to_string()), &reg, &s, false).is_some());
    assert!(!state.command_is_active("/pr"));
    assert!(state.set_active_repo_root(Some("/repo2".to_string()), &reg, &signals(), false).is_some());
    assert!(state.command_is_active("/pr"));
}

#[test]
fn menu_items_for_commands_and_skills() {
    let cmd = command(9, "/new", Availability::empty());
    let item = InlineItem::from_slash_command(&cmd);
    assert!(matches!(item.action, AcceptSlashCommandOrSavedPrompt::SlashCommand { id: 9 }));
    assert!(matches!(item.icon, ItemIcon::Path(ref p) if p == "icon.svg"));
    assert_eq!(item.name, "/new");
    assert_eq!(item.description.as_deref(), Some("runs /new"));
    assert!(item.name_match_result.is_none() && item.description_match_result.is_none());

    let skill = SkillDescriptor {
        reference: "~/.agents/skills/figma".to_string(),
        name: "figma".to_string(),
        description: "Work with Figma".to_string(),
        provider: SkillProvider::Claude,
        icon_override: None,
    };
    let item = InlineItem::from_skill(&skill);
    match &item.action {
        AcceptSlashCommandOrSavedPrompt::Skill { reference, name } => {
            assert_eq!(reference, "~/.agents/skills/figma");
            assert_eq!(name, "figma");
        }
        _ => panic!("expected a skill action"),
    }
    assert!(matches!(item.icon, ItemIcon::Icon(MenuIcon::ClaudeLogo)));
    assert_eq!(item.name, "/figma");
    assert_eq!(item.description.as_deref(), Some("Work with Figma"));

    let item = item.with_name_match_result(Some(FuzzyMatchResult {
        score: 40,
        matched_indices: vec![1, 2],
    }));
    assert_eq!(item.name_match_result.as_ref().map(|m| m.score), Some(40));
    let item = item.with_description_match_result(None);
    assert!(item.description_match_result.is_none());
    assert_eq!(item.name, "/figma");
}

#[test]
fn listed_candidates_keep_matches_above_the_threshold() {
    let outcomes = vec![
        MatchOutcome { matched: true, score_above_threshold: true },
        MatchOutcome { matched: true, score_above_threshold: false },
        MatchOutcome { matched: false, score_above_threshold: true },
        MatchOutcome { matched: true, score_above_threshold: true },
    ];
    assert_eq!(listed_candidates(3, &outcomes), vec![0, 3]);
    assert_eq!(listed_candidates(1, &outcomes), vec![0, 1, 3]);
    assert!(listed_candidates(2, &Vec::new()).is_empty());
    assert!(is_listed(0, &outcomes[1]));
    assert!(!is_listed(5, &outcomes[2]));
}
