use azookey::engine::client_action::ClientAction;
use azookey::engine::composition::{Candidate, Composition, CompositionState};
use azookey::engine::executor::{ComposingText, Effect, Failure, Progress, Reply, Settlement};
use azookey::engine::input_mode::InputMode;
use azookey::engine::user_action::{Modifiers, Navigation, UserAction};
use azookey::tsf::factory::TextServiceFactory;

/// A host and a backend in memory. The backend spells a few syllables and
/// offers its spelling as the only candidate.
struct Host {
    input: String,
    calls: Vec<String>,
    document: String,
    shown: String,
    session_open: bool,
    surface_visible: bool,
    failing: Option<Effect>,
    mute: bool,
    forgetful: bool,
}

fn host() -> Host {
    Host {
        input: String::new(),
        calls: Vec::new(),
        document: String::new(),
        shown: String::new(),
        session_open: false,
        surface_visible: false,
        failing: None,
        mute: false,
        forgetful: false,
    }
}

fn spell(input: &str) -> String {
    input.replace("ka", "か").replace("ki", "き").replace('a', "あ").replace('i', "い")
}

fn composed(input: &str) -> ComposingText {
    let spell = spell(input);
    let suggestions = if spell.is_empty() {
        Vec::new()
    } else {
        vec![Candidate {
            text: spell.clone(),
            subtext: input.to_string(),
            corresponding_count: input.chars().count() as i32,
        }]
    };
    ComposingText { spell, suggestions }
}

fn perform(host: &mut Host, effect: Effect) -> Reply {
    if host.failing.as_ref() == Some(&effect) {
        host.calls.push(format!("{:?} failed", effect));
        return Reply::Failed;
    }
    host.calls.push(format!("{:?}", effect));
    match effect {
        Effect::BeginSession => {
            host.session_open = true;
            Reply::Done
        }
        Effect::ShowCandidateSurface => {
            host.surface_visible = true;
            Reply::Done
        }
        Effect::HideCandidateSurface => {
            host.surface_visible = false;
            Reply::Done
        }
        Effect::CommitText(text) => {
            host.document.push_str(&text);
            host.shown.clear();
            Reply::Done
        }
        Effect::EndSession => {
            host.session_open = false;
            Reply::Done
        }
        Effect::UpdateText(text) => {
            host.shown = text;
            Reply::Done
        }
        Effect::Append(unit) => {
            host.input.push_str(&unit);
            if host.mute {
                Reply::Done
            } else {
                Reply::Composed(composed(&host.input))
            }
        }
        Effect::Remove => {
            if host.forgetful {
                host.input.clear();
            } else {
                host.input.pop();
            }
            Reply::Composed(composed(&host.input))
        }
        Effect::Clear => {
            host.input.clear();
            Reply::Done
        }
    }
}

fn drive(host: &mut Host, mut progress: Progress) -> Settlement {
    loop {
        match progress {
            Progress::Settled(settlement) => return settlement,
            Progress::Pending(pass) => {
                let reply = perform(host, pass.effect());
                progress = pass.resume(reply);
            }
        }
    }
}

fn press(host: &mut Host, factory: TextServiceFactory, action: UserAction) -> TextServiceFactory {
    let settlement = drive(host, factory.handle_user_action(action));
    assert!(settlement.handled, "{:?} was not handled", action);
    assert_eq!(settlement.failure, None);
    settlement.factory
}

fn idle() -> Composition {
    Composition { state: CompositionState::Idle, composed_text: String::new(), suggestions: vec![] }
}

fn composing(input: &str) -> Composition {
    let text = composed(input);
    Composition {
        state: CompositionState::Composing,
        composed_text: text.spell,
        suggestions: text.suggestions,
    }
}

fn calls(host: &Host) -> Vec<&str> {
    host.calls.iter().map(|call| call.as_str()).collect()
}

#[test]
fn new_service_is_idle() {
    let factory = TextServiceFactory::new(InputMode::Kana, true);
    assert_eq!(factory.composition(), &idle());
    assert_eq!(factory.composition(), &Composition::default());
    assert_eq!(factory.state(), CompositionState::Idle);
    assert_eq!(factory.mode(), InputMode::Kana);
    assert!(factory.has_candidate_surface());
    let factory = TextServiceFactory::new(InputMode::Latin, false);
    assert_eq!(factory.mode(), InputMode::Latin);
    assert!(!factory.has_candidate_surface());
}

#[test]
fn typing_k_a_enter_commits_the_kana() {
    let mut host = host();
    let factory = TextServiceFactory::new(InputMode::Kana, false);

    let factory = press(&mut host, factory, UserAction::Input('k'));
    assert_eq!(factory.composition(), &composing("k"));
    assert!(host.session_open);
    assert_eq!(host.shown, "k");

    let factory = press(&mut host, factory, UserAction::Input('a'));
    assert_eq!(factory.composition(), &composing("ka"));
    assert_eq!(factory.composition().composed_text, "か");
    assert_eq!(host.shown, "か");

    let factory = press(&mut host, factory, UserAction::Enter);
    assert_eq!(factory.composition(), &idle());
    assert_eq!(factory.mode(), InputMode::Kana);
    assert_eq!(host.document, "か");
    assert!(!host.session_open);
    assert_eq!(host.input, "");
    assert_eq!(
        calls(&host),
        vec![
            "BeginSession",
            "Append(\"k\")",
            "UpdateText(\"k\")",
            "Append(\"a\")",
            "UpdateText(\"か\")",
            "CommitText(\"か\")",
            "EndSession",
            "Clear",
        ]
    );
}

#[test]
fn backspace_after_one_character_empties_the_record() {
    let mut host = host();
    let factory = TextServiceFactory::new(InputMode::Kana, false);
    let factory = press(&mut host, factory, UserAction::Input('a'));
    assert_eq!(factory.state(), CompositionState::Composing);
    assert_eq!(factory.composition().composed_text, "あ");
    let factory = press(&mut host, factory, UserAction::Backspace);
    assert_eq!(factory.state(), CompositionState::Idle);
    assert_eq!(factory.composition().composed_text, "");
    assert!(factory.composition().suggestions.is_empty());
    assert_eq!(host.document, "");
    assert!(!host.session_open);
    assert_eq!(
        calls(&host),
        vec![
            "BeginSession",
            "Append(\"a\")",
            "UpdateText(\"あ\")",
            "Remove",
            "UpdateText(\"\")",
            "CommitText(\"\")",
            "EndSession",
            "Clear",
        ]
    );
}

#[test]
fn backspace_on_longer_text_keeps_the_session() {
    let mut host = host();
    let factory = TextServiceFactory::new(InputMode::Kana, false);
    let factory = press(&mut host, factory, UserAction::Input('a'));
    let factory = press(&mut host, factory, UserAction::Input('i'));
    assert_eq!(factory.composition(), &composing("ai"));
    let factory = press(&mut host, factory, UserAction::Backspace);
    assert_eq!(factory.composition(), &composing("a"));
    assert_eq!(host.shown, "あ");
    assert!(host.session_open);
}

#[test]
fn backspace_goes_idle_when_the_backend_has_nothing_left() {
    let mut host = host();
    host.forgetful = true;
    let factory = TextServiceFactory::new(InputMode::Kana, false);
    let factory = press(&mut host, factory, UserAction::Input('a'));
    let factory = press(&mut host, factory, UserAction::Input('i'));
    assert_eq!(factory.composition().composed_text.chars().count(), 2);
    let factory = press(&mut host, factory, UserAction::Backspace);
    assert_eq!(factory.composition(), &idle());
    assert_eq!(host.calls[host.calls.len() - 2..], ["Remove", "UpdateText(\"\")"]);
}

#[test]
fn escape_discards_whatever_was_typed() {
    let mut host = host();
    let factory = TextServiceFactory::new(InputMode::Kana, false);
    let factory = press(&mut host, factory, UserAction::Input('a'));
    let factory = press(&mut host, factory, UserAction::Input('b'));
    assert_eq!(factory.composition().composed_text, "あb");
    let factory = press(&mut host, factory, UserAction::Escape);
    assert_eq!(factory.state(), CompositionState::Idle);
    assert_eq!(factory.composition().composed_text, "");
    assert!(factory.composition().suggestions.is_empty());
    assert_eq!(host.input, "");
    assert!(!host.session_open);
}

#[test]
fn escape_discards_after_one_and_after_many() {
    for typed in ["a", "ab", "kakiai"] {
        let mut host = host();
        let mut factory = TextServiceFactory::new(InputMode::Kana, true);
        for c in typed.chars() {
            factory = press(&mut host, factory, UserAction::Input(c));
        }
        let factory = press(&mut host, factory, UserAction::Escape);
        assert_eq!(factory.composition(), &idle());
        assert!(!host.surface_visible);
    }
}

#[test]
fn toggle_outside_a_session_flips_the_mode() {
    let mut host = host();
    let factory = TextServiceFactory::new(InputMode::Kana, false);
    let factory = press(&mut host, factory, UserAction::ToggleInputMode);
    assert_eq!(factory.mode(), InputMode::Latin);
    assert_eq!(factory.composition(), &idle());
    let factory = press(&mut host, factory, UserAction::ToggleInputMode);
    assert_eq!(factory.mode(), InputMode::Kana);
    assert_eq!(calls(&host), vec!["Clear", "Clear"]);
}

#[test]
fn toggle_in_a_session_ends_it_in_latin_mode() {
    let mut host = host();
    let factory = TextServiceFactory::new(InputMode::Kana, false);
    let factory = press(&mut host, factory, UserAction::Input('k'));
    let factory = press(&mut host, factory, UserAction::ToggleInputMode);
    assert_eq!(factory.mode(), InputMode::Latin);
    assert_eq!(factory.composition(), &idle());
    assert_eq!(host.input, "");
}

#[test]
fn toggle_in_a_latin_session_stays_latin() {
    let mut host = host();
    let factory = TextServiceFactory::new(InputMode::Latin, false);
    let start = vec![ClientAction::StartComposition, ClientAction::AppendText("k".to_string())];
    let settlement = drive(&mut host, factory.handle_action(start, CompositionState::Composing));
    let factory = settlement.factory;
    assert_eq!(factory.state(), CompositionState::Composing);
    assert_eq!(factory.mode(), InputMode::Latin);
    let factory = press(&mut host, factory, UserAction::ToggleInputMode);
    assert_eq!(factory.mode(), InputMode::Latin);
    assert_eq!(factory.state(), CompositionState::Idle);
}

#[test]
fn failed_append_rolls_the_record_back() {
    let mut host = host();
    let factory = TextServiceFactory::new(InputMode::Kana, false);
    let factory = press(&mut host, factory, UserAction::Input('k'));
    let before = factory.composition().clone();
    host.failing = Some(Effect::Append("a".to_string()));
    let settlement = drive(&mut host, factory.handle_user_action(UserAction::Input('a')));
    assert!(!settlement.handled);
    assert_eq!(settlement.failure, Some(Failure::Backend));
    assert_eq!(settlement.factory.composition(), &before);
    assert_eq!(settlement.factory.composition(), &composing("k"));
    assert_eq!(settlement.factory.mode(), InputMode::Kana);
    assert_eq!(host.calls.last().unwrap(), "Append(\"a\") failed");
}

#[test]
fn failed_first_append_leaves_the_record_idle() {
    let mut host = host();
    host.failing = Some(Effect::Append("a".to_string()));
    let factory = TextServiceFactory::new(InputMode::Kana, true);
    let settlement = drive(&mut host, factory.handle_user_action(UserAction::Input('a')));
    assert!(!settlement.handled);
    assert_eq!(settlement.failure, Some(Failure::Backend));
    assert_eq!(settlement.factory.composition(), &idle());
    assert_eq!(
        calls(&host),
        vec!["BeginSession", "ShowCandidateSurface", "Append(\"a\") failed"]
    );
}

#[test]
fn append_without_an_answer_counts_as_backend_failure() {
    let mut host = host();
    host.mute = true;
    let factory = TextServiceFactory::new(InputMode::Kana, false);
    let settlement = drive(&mut host, factory.handle_user_action(UserAction::Input('a')));
    assert!(!settlement.handled);
    assert_eq!(settlement.failure, Some(Failure::Backend));
    assert_eq!(settlement.factory.composition(), &idle());
}

#[test]
fn failed_remove_rolls_the_record_back() {
    let mut host = host();
    let factory = TextServiceFactory::new(InputMode::Kana, false);
    let factory = press(&mut host, factory, UserAction::Input('a'));
    host.failing = Some(Effect::Remove);
    let settlement = drive(&mut host, factory.handle_user_action(UserAction::Escape));
    assert!(!settlement.handled);
    assert_eq!(settlement.failure, Some(Failure::Backend));
    assert_eq!(settlement.factory.composition(), &composing("a"));
}

#[test]
fn failed_clear_keeps_mode_and_record() {
    let mut host = host();
    host.failing = Some(Effect::Clear);
    let factory = TextServiceFactory::new(InputMode::Kana, false);
    let settlement = drive(&mut host, factory.handle_user_action(UserAction::ToggleInputMode));
    assert!(!settlement.handled);
    assert_eq!(settlement.failure, Some(Failure::Backend));
    assert_eq!(settlement.factory.mode(), InputMode::Kana);
    assert_eq!(settlement.factory.composition(), &idle());

    let factory = press(&mut host, settlement.factory, UserAction::Input('a'));
    let settlement = drive(&mut host, factory.handle_user_action(UserAction::Enter));
    assert_eq!(settlement.failure, Some(Failure::Backend));
    assert_eq!(settlement.factory.composition(), &composing("a"));
}

#[test]
fn failed_host_call_ends_the_session() {
    let mut host = host();
    let factory = TextServiceFactory::new(InputMode::Kana, true);
    let factory = press(&mut host, factory, UserAction::Input('a'));
    host.failing = Some(Effect::UpdateText("あい".to_string()));
    let settlement = drive(&mut host, factory.handle_user_action(UserAction::Input('i')));
    assert!(!settlement.handled);
    assert_eq!(settlement.failure, Some(Failure::HostBinding));
    assert_eq!(settlement.factory.composition(), &idle());
    assert_eq!(settlement.factory.mode(), InputMode::Kana);
    assert!(settlement.factory.has_candidate_surface());
}

#[test]
fn failed_session_start_is_a_host_failure() {
    let mut host = host();
    host.failing = Some(Effect::BeginSession);
    let factory = TextServiceFactory::new(InputMode::Kana, false);
    let settlement = drive(&mut host, factory.handle_user_action(UserAction::Input('a')));
    assert!(!settlement.handled);
    assert_eq!(settlement.failure, Some(Failure::HostBinding));
    assert_eq!(settlement.factory.composition(), &idle());
    assert_eq!(calls(&host), vec!["BeginSession failed"]);
}

#[test]
fn keys_without_a_table_entry_change_nothing() {
    let others = [
        UserAction::Backspace,
        UserAction::Enter,
        UserAction::Escape,
        UserAction::Navigation(Navigation::Left),
        UserAction::Navigation(Navigation::Down),
    ];
    for action in others {
        let mut host = host();
        let factory = TextServiceFactory::new(InputMode::Kana, true);
        let settlement = drive(&mut host, factory.handle_user_action(action));
        assert!(!settlement.handled);
        assert_eq!(settlement.failure, None);
        assert_eq!(settlement.factory.composition(), &idle());
        assert_eq!(settlement.factory.mode(), InputMode::Kana);
        assert!(host.calls.is_empty());
    }
}

#[test]
fn typing_in_latin_mode_is_left_to_the_host() {
    for action in [UserAction::Input('a'), UserAction::Number(5)] {
        let factory = TextServiceFactory::new(InputMode::Latin, false);
        match factory.handle_user_action(action) {
            Progress::Settled(settlement) => {
                assert!(!settlement.handled);
                assert_eq!(settlement.failure, None);
                assert_eq!(settlement.factory.composition(), &idle());
                assert_eq!(settlement.factory.mode(), InputMode::Latin);
            }
            Progress::Pending(pass) => panic!("asked for {:?}", pass.effect()),
        }
    }
}

#[test]
fn reserved_states_handle_no_key() {
    for state in [CompositionState::Previewing, CompositionState::Selecting] {
        let mut host = host();
        let factory = TextServiceFactory::new(InputMode::Kana, false);
        let factory = drive(&mut host, factory.handle_action(vec![], state)).factory;
        assert_eq!(factory.state(), state);
        for action in [UserAction::Input('a'), UserAction::Enter, UserAction::ToggleInputMode] {
            let factory = drive(&mut host, TextServiceFactory::new(InputMode::Kana, false)
                .handle_action(vec![], state))
            .factory;
            let settlement = drive(&mut host, factory.handle_user_action(action));
            assert!(!settlement.handled);
            assert_eq!(settlement.factory.state(), state);
        }
        assert!(host.calls.is_empty());
    }
}

#[test]
fn arrows_are_handled_and_ask_for_nothing() {
    let mut host = host();
    let factory = TextServiceFactory::new(InputMode::Kana, false);
    let mut factory = press(&mut host, factory, UserAction::Input('a'));
    let asked = host.calls.len();
    for direction in [Navigation::Left, Navigation::Right, Navigation::Up, Navigation::Down] {
        factory = press(&mut host, factory, UserAction::Navigation(direction));
        assert_eq!(factory.composition(), &composing("a"));
    }
    assert_eq!(host.calls.len(), asked);
}

#[test]
fn digits_are_typed_like_characters() {
    let mut host = host();
    let factory = TextServiceFactory::new(InputMode::Kana, false);
    let factory = press(&mut host, factory, UserAction::Number(4));
    let factory = press(&mut host, factory, UserAction::Number(2));
    assert_eq!(factory.composition().composed_text, "42");
    assert_eq!(host.input, "42");
}

#[test]
fn punctuation_goes_to_the_backend_in_full_width() {
    let mut host = host();
    let factory = TextServiceFactory::new(InputMode::Kana, false);
    let factory = press(&mut host, factory, UserAction::Input('a'));
    let factory = press(&mut host, factory, UserAction::Input(','));
    let factory = press(&mut host, factory, UserAction::Input('!'));
    assert_eq!(host.input, "a、！");
    assert_eq!(factory.composition().composed_text, "あ、！");
}

#[test]
fn latin_mode_appends_as_typed() {
    let mut host = host();
    let factory = TextServiceFactory::new(InputMode::Latin, false);
    let actions = vec![ClientAction::AppendText("!".to_string())];
    match factory.handle_action(actions, CompositionState::Composing) {
        Progress::Pending(pass) => assert_eq!(pass.effect(), Effect::Append("!".to_string())),
        Progress::Settled(_) => panic!("nothing was asked"),
    }
    let factory = TextServiceFactory::new(InputMode::Kana, false);
    let actions = vec![ClientAction::AppendText("!".to_string())];
    let settlement = drive(&mut host, factory.handle_action(actions, CompositionState::Composing));
    assert_eq!(host.calls[0], "Append(\"！\")");
    assert_eq!(settlement.factory.composition().composed_text, "！");
}

#[test]
fn candidate_surface_is_shown_and_hidden() {
    let mut host = host();
    let factory = TextServiceFactory::new(InputMode::Kana, true);
    let factory = press(&mut host, factory, UserAction::Input('a'));
    assert!(host.surface_visible);
    let factory = press(&mut host, factory, UserAction::Enter);
    assert!(!host.surface_visible);
    assert_eq!(factory.composition(), &idle());
    assert_eq!(
        calls(&host),
        vec![
            "BeginSession",
            "ShowCandidateSurface",
            "Append(\"a\")",
            "UpdateText(\"あ\")",
            "CommitText(\"あ\")",
            "EndSession",
            "Clear",
            "HideCandidateSurface",
        ]
    );
}

#[test]
fn termination_from_outside_commits_and_goes_idle() {
    let mut host = host();
    let factory = TextServiceFactory::new(InputMode::Kana, false);
    let factory = press(&mut host, factory, UserAction::Input('k'));
    let factory = press(&mut host, factory, UserAction::Input('i'));
    let settlement = drive(&mut host, factory.on_composition_terminated());
    assert!(settlement.handled);
    assert_eq!(settlement.factory.composition(), &idle());
    assert_eq!(host.document, "き");

    let settlement = drive(&mut host, settlement.factory.on_composition_terminated());
    assert_eq!(settlement.factory.composition(), &idle());
    assert_eq!(host.document, "き");
}

#[test]
fn cursor_moves_have_no_effect() {
    let factory = TextServiceFactory::new(InputMode::Kana, true);
    let actions = vec![ClientAction::MoveCursor(3), ClientAction::MoveCursor(-128)];
    match factory.handle_action(actions, CompositionState::Composing) {
        Progress::Settled(settlement) => {
            assert!(settlement.handled);
            assert_eq!(settlement.factory.state(), CompositionState::Composing);
            assert_eq!(settlement.factory.composition().composed_text, "");
        }
        Progress::Pending(pass) => panic!("asked for {:?}", pass.effect()),
    }
}

#[test]
fn commit_to_idle_never_keeps_text() {
    let mut host = host();
    let factory = TextServiceFactory::new(InputMode::Kana, false);
    let actions = vec![ClientAction::AppendText("a".to_string())];
    let settlement = drive(&mut host, factory.handle_action(actions, CompositionState::Idle));
    assert!(settlement.handled);
    assert_eq!(settlement.factory.composition(), &idle());
}

#[test]
fn set_mode_action_sets_the_named_mode() {
    for (from, to) in [
        (InputMode::Kana, InputMode::Kana),
        (InputMode::Kana, InputMode::Latin),
        (InputMode::Latin, InputMode::Kana),
    ] {
        let mut host = host();
        let factory = TextServiceFactory::new(from, false);
        let actions = vec![ClientAction::SetIMEMode(to)];
        let settlement = drive(&mut host, factory.handle_action(actions, CompositionState::Idle));
        assert_eq!(settlement.factory.mode(), to);
        assert_eq!(calls(&host), vec!["Clear"]);
    }
}

#[test]
fn raw_keys_run_a_whole_session() {
    let plain = Modifiers { control: false, shift: false };
    let mut host = host();
    let mut factory = TextServiceFactory::new(InputMode::Kana, false);
    for key in [0x4Busize, 0x41, 0xBC, 0x0D] {
        let settlement = drive(&mut host, factory.handle_key(key, plain));
        assert!(settlement.handled);
        factory = settlement.factory;
    }
    assert_eq!(host.document, "か、");
    assert_eq!(factory.composition(), &idle());
}

#[test]
fn control_chords_and_unmapped_keys_pass_through() {
    let mut host = host();
    let factory = TextServiceFactory::new(InputMode::Kana, false);
    let factory = press(&mut host, factory, UserAction::Input('a'));
    let asked = host.calls.len();
    let chord = Modifiers { control: true, shift: false };
    let settlement = drive(&mut host, factory.handle_key(0x41, chord));
    assert!(!settlement.handled);
    assert_eq!(settlement.factory.composition(), &composing("a"));
    let plain = Modifiers { control: false, shift: false };
    let settlement = drive(&mut host, settlement.factory.handle_key(0x70, plain));
    assert!(!settlement.handled);
    assert_eq!(settlement.factory.composition(), &composing("a"));
    assert_eq!(host.calls.len(), asked);
}

#[test]
fn backend_calls_are_told_from_host_calls() {
    assert!(Effect::Append("a".to_string()).is_backend());
    assert!(Effect::Remove.is_backend());
    assert!(Effect::Clear.is_backend());
    assert!(!Effect::BeginSession.is_backend());
    assert!(!Effect::EndSession.is_backend());
    assert!(!Effect::CommitText(String::new()).is_backend());
    assert!(!Effect::UpdateText(String::new()).is_backend());
    assert!(!Effect::ShowCandidateSurface.is_backend());
    assert!(!Effect::HideCandidateSurface.is_backend());
}

#[test]
fn clones_keep_every_field() {
    let candidate = Candidate { text: "か".to_string(), subtext: "ka".to_string(), corresponding_count: 2 };
    assert_eq!(candidate.clone(), candidate);
    let record = composing("kaki");
    assert_eq!(record.clone(), record);
    for action in [
        ClientAction::StartComposition,
        ClientAction::EndComposition,
        ClientAction::AppendText("a".to_string()),
        ClientAction::RemoveText,
        ClientAction::MoveCursor(-1),
        ClientAction::SetIMEMode(InputMode::Latin),
    ] {
        assert_eq!(action.clone(), action);
    }
}
