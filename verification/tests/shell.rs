use astronome::metronome::{Intent, MetronomeState};
use astronome::shell::{AppModel, Config, ContextPage, Effect, MenuAction, Message};

fn config(demo: &str) -> Config {
    Config { demo: demo.to_string() }
}

fn fresh() -> AppModel {
    AppModel::init(false, Config::default())
}

#[test]
fn init_gives_the_starting_model() {
    let model = AppModel::init(false, config("first"));
    assert_eq!(model.context_page, ContextPage::About);
    assert!(!model.show_context);
    assert_eq!(model.config, config("first"));
    assert_eq!(model.metronome, MetronomeState::new());
    assert_eq!(model.metronome.tempo(), 120);
    assert_eq!(model.metronome.beats(), 4);
    assert!(model.metronome.is_tempo_mode());

    let model = AppModel::init(true, Config::default());
    assert!(model.show_context);
    assert_eq!(model.config.demo, "");
}

#[test]
fn default_context_page_is_about() {
    assert_eq!(ContextPage::default(), ContextPage::About);
}

#[test]
fn about_page_title_is_the_about_message() {
    assert_eq!(ContextPage::About.title(), "about");
}

#[test]
fn about_menu_entry_toggles_the_about_page() {
    let message = MenuAction::About.message();
    assert!(matches!(message, Message::ToggleContextPage(ContextPage::About)));
}

#[test]
fn buttons_carry_intents_and_nothing_else_does() {
    assert_eq!(Message::ButtonUpPressed.intent(), Some(Intent::Up));
    assert_eq!(Message::ButtonDownPressed.intent(), Some(Intent::Down));
    assert_eq!(Message::ButtonModePressed.intent(), Some(Intent::ToggleMode));
    assert_eq!(Message::ButtonPlayPressed.intent(), Some(Intent::Play));
    assert_eq!(Message::OpenRepositoryUrl.intent(), None);
    assert_eq!(Message::SubscriptionChannel.intent(), None);
    assert_eq!(Message::ToggleContextPage(ContextPage::About).intent(), None);
    assert_eq!(Message::UpdateConfig(config("x")).intent(), None);
}

#[test]
fn up_button_raises_the_tempo() {
    let mut model = fresh();
    let effect = model.update(Message::ButtonUpPressed);
    assert_eq!(effect, None);
    assert_eq!(model.metronome.tempo(), 121);
    assert_eq!(model.metronome.beats(), 4);
    assert!(model.metronome.is_tempo_mode());
    assert!(!model.show_context);
    assert_eq!(model.context_page, ContextPage::About);
    assert_eq!(model.config, Config::default());
}

#[test]
fn down_button_lowers_the_tempo() {
    let mut model = fresh();
    let effect = model.update(Message::ButtonDownPressed);
    assert_eq!(effect, None);
    assert_eq!(model.metronome.tempo(), 119);
    assert_eq!(model.metronome.beats(), 4);
}

#[test]
fn mode_button_then_up_button_steps_the_beats() {
    let mut model = fresh();
    assert_eq!(model.update(Message::ButtonModePressed), None);
    assert!(!model.metronome.is_tempo_mode());
    let mut seen = Vec::new();
    for _ in 0..5 {
        assert_eq!(model.update(Message::ButtonUpPressed), None);
        seen.push(model.metronome.beats());
    }
    assert_eq!(seen, vec![5, 6, 7, 8, 0]);
    assert_eq!(model.update(Message::ButtonDownPressed), None);
    assert_eq!(model.metronome.beats(), 8);
    assert_eq!(model.metronome.tempo(), 120);
}

#[test]
fn mode_button_twice_restores_the_mode() {
    let mut model = fresh();
    model.update(Message::ButtonModePressed);
    model.update(Message::ButtonModePressed);
    assert_eq!(model.metronome, MetronomeState::new());
}

#[test]
fn play_button_changes_nothing() {
    let mut model = AppModel::init(true, config("kept"));
    let effect = model.update(Message::ButtonPlayPressed);
    assert_eq!(effect, None);
    assert_eq!(model.metronome, MetronomeState::new());
    assert!(model.show_context);
    assert_eq!(model.context_page, ContextPage::About);
    assert_eq!(model.config, config("kept"));
}

#[test]
fn toggling_the_selected_page_opens_and_closes_the_drawer() {
    let mut model = fresh();
    assert_eq!(model.context_drawer(), None);

    let effect = model.update(Message::ToggleContextPage(ContextPage::About));
    assert_eq!(effect, Some(Effect::SetContextTitle(ContextPage::About)));
    assert!(model.show_context);
    assert_eq!(model.context_page, ContextPage::About);
    assert_eq!(model.context_drawer(), Some(ContextPage::About));

    let effect = model.update(MenuAction::About.message());
    assert_eq!(effect, Some(Effect::SetContextTitle(ContextPage::About)));
    assert!(!model.show_context);
    assert_eq!(model.context_drawer(), None);
    assert_eq!(model.metronome, MetronomeState::new());
}

#[test]
fn open_repository_asks_for_the_browser_and_keeps_the_model() {
    let mut model = AppModel::init(true, config("kept"));
    let effect = model.update(Message::OpenRepositoryUrl);
    assert_eq!(effect, Some(Effect::OpenRepositoryUrl));
    assert!(model.show_context);
    assert_eq!(model.config, config("kept"));
    assert_eq!(model.metronome, MetronomeState::new());
}

#[test]
fn subscription_message_does_nothing() {
    let mut model = fresh();
    model.update(Message::ButtonUpPressed);
    let effect = model.update(Message::SubscriptionChannel);
    assert_eq!(effect, None);
    assert_eq!(model.metronome.tempo(), 121);
    assert!(!model.show_context);
}

#[test]
fn update_config_replaces_the_configuration() {
    let mut model = AppModel::init(false, config("old"));
    let effect = model.update(Message::UpdateConfig(config("new")));
    assert_eq!(effect, None);
    assert_eq!(model.config, config("new"));
    assert_eq!(model.metronome, MetronomeState::new());
    assert!(!model.show_context);
}

#[test]
fn mode_label_names_the_edited_counter() {
    let mut model = fresh();
    assert_eq!(model.mode_label(), "Tempo");
    model.update(Message::ButtonModePressed);
    assert_eq!(model.mode_label(), "Beats");
    model.update(Message::ButtonModePressed);
    assert_eq!(model.mode_label(), "Tempo");
}

#[test]
fn ordinary_messages_are_accepted() {
    let model = fresh();
    assert!(model.accepts(&Message::ButtonUpPressed));
    assert!(model.accepts(&Message::ButtonDownPressed));
    assert!(model.accepts(&Message::ButtonModePressed));
    assert!(model.accepts(&Message::ButtonPlayPressed));
    assert!(model.accepts(&Message::OpenRepositoryUrl));
    assert!(model.accepts(&Message::SubscriptionChannel));
    assert!(model.accepts(&Message::ToggleContextPage(ContextPage::About)));
    assert!(model.accepts(&Message::UpdateConfig(config("x"))));
}

#[test]
fn context_drawer_follows_the_flag() {
    let model = fresh();
    let open = AppModel {
        context_page: model.context_page,
        show_context: true,
        config: model.config.clone(),
        metronome: model.metronome,
    };
    assert_eq!(open.context_drawer(), Some(ContextPage::About));
    let closed = AppModel { show_context: false, ..open };
    assert_eq!(closed.context_drawer(), None);
}

#[test]
fn clones_are_equal_to_what_they_were_made_from() {
    let first = config("kept");
    assert_eq!(first.clone(), first);
    assert_eq!(first.clone().demo, "kept");

    let message = Message::UpdateConfig(config("sent"));
    match message.clone() {
        Message::UpdateConfig(copy) => assert_eq!(copy, config("sent")),
        other => panic!("the clone is another message: {:?}", other),
    }
    assert!(matches!(Message::OpenRepositoryUrl.clone(), Message::OpenRepositoryUrl));
    assert!(matches!(Message::SubscriptionChannel.clone(), Message::SubscriptionChannel));
    assert!(matches!(
        Message::ToggleContextPage(ContextPage::About).clone(),
        Message::ToggleContextPage(ContextPage::About)
    ));
    assert!(matches!(Message::ButtonUpPressed.clone(), Message::ButtonUpPressed));
    assert!(matches!(Message::ButtonDownPressed.clone(), Message::ButtonDownPressed));
    assert!(matches!(Message::ButtonModePressed.clone(), Message::ButtonModePressed));
    assert!(matches!(Message::ButtonPlayPressed.clone(), Message::ButtonPlayPressed));
}

#[test]
fn drawer_flag_set_from_outside_is_what_update_toggles() {
    let mut model = fresh();
    model.show_context = true;
    let effect = model.update(Message::ToggleContextPage(ContextPage::About));
    assert_eq!(effect, Some(Effect::SetContextTitle(ContextPage::About)));
    assert!(!model.show_context);
}
