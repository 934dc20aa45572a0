use mailtui::actions::Actions;
use mailtui::app::{App, Effect, Key, SelectedSendWidget, SelectedWidget};
use mailtui::args::{parse_account, parse_accounts, ArgsError};
use mailtui::state::{Envelope, PAGE_SIZE};

fn s(x: &str) -> String {
    x.to_string()
}

fn envelopes(n: usize) -> Vec<Envelope> {
    (0..n)
        .map(|i| Envelope {
            id: (100 + i).to_string(),
            flags: s(""),
            subject: s("subject"),
            from: s("carol@example.org"),
            date: s("today"),
        })
        .collect()
}

fn app_with_accounts(accounts: &[&str]) -> App {
    let mut app = App::new();
    app.view_state.accounts = accounts.iter().map(|a| s(a)).collect();
    app
}

/// Alice's INBOX is selected and a page of `n` headers is shown.
fn app_on_inbox(n: usize) -> App {
    let mut app = app_with_accounts(&["alice", "bob"]);
    app.accounts_list_selected = Some(0);
    app.view_state.folders = Some(vec![s("INBOX"), s("Sent")]);
    app.folders_list_selected = Some(0);
    app.view_state.messages = Some(envelopes(n));
    app.selected_widget = SelectedWidget::Messages;
    app
}

fn expect_list_envelopes(a: Option<Actions>, login: &str, folder: &str, page: usize) {
    match a {
        Some(Actions::ListEnvelopes { login: l, folder: f, page: p }) => {
            assert_eq!(l, login);
            assert_eq!(f, folder);
            assert_eq!(p, page);
        }
        other => panic!("unexpected {:?}", other),
    }
}

#[test]
fn first_account_asks_for_its_folders() {
    let mut app = app_with_accounts(&["alice", "bob"]);
    app.view_state.folders = Some(vec![s("old")]);
    app.folders_list_selected = Some(0);
    app.messages_table_page = 3;
    match app.select_first_account() {
        Some(Actions::ListFolders { login }) => assert_eq!(login, "alice"),
        other => panic!("unexpected {:?}", other),
    }
    assert_eq!(app.accounts_list_selected, Some(0));
    assert!(app.view_state.folders.is_none());
    assert!(app.folders_list_selected.is_none());
    assert_eq!(app.messages_table_page, 0);
}

#[test]
fn first_account_of_no_accounts_asks_nothing() {
    let mut app = App::new();
    assert!(app.select_first_account().is_none());
    assert_eq!(app.accounts_list_selected, Some(0));
}

#[test]
fn account_selection_wraps_around() {
    let mut app = app_with_accounts(&["alice", "bob", "carol"]);
    assert!(app.select_next_account().is_none());
    app.accounts_list_selected = Some(2);
    match app.select_next_account() {
        Some(Actions::ListFolders { login }) => assert_eq!(login, "alice"),
        other => panic!("unexpected {:?}", other),
    }
    assert_eq!(app.accounts_list_selected, Some(0));
    match app.select_previous_account() {
        Some(Actions::ListFolders { login }) => assert_eq!(login, "carol"),
        other => panic!("unexpected {:?}", other),
    }
    assert_eq!(app.accounts_list_selected, Some(2));
}

#[test]
fn first_folder_is_selected_once_folders_arrive() {
    let mut app = app_with_accounts(&["alice"]);
    app.accounts_list_selected = Some(0);
    assert!(app.select_first_folder_if_not_selected().is_none());
    app.view_state.folders = Some(vec![s("INBOX"), s("Sent")]);
    expect_list_envelopes(app.select_first_folder_if_not_selected(), "alice", "INBOX", 0);
    assert_eq!(app.folders_list_selected, Some(0));
    assert!(app.select_first_folder_if_not_selected().is_none());
}

#[test]
fn folder_selection_wraps_around() {
    let mut app = app_on_inbox(3);
    app.messages_table_page = 2;
    expect_list_envelopes(app.select_previous_folder(), "alice", "Sent", 0);
    assert_eq!(app.folders_list_selected, Some(1));
    assert!(app.view_state.messages.is_none());
    assert_eq!(app.messages_table_page, 0);
    expect_list_envelopes(app.select_next_folder(), "alice", "INBOX", 0);
    assert_eq!(app.folders_list_selected, Some(0));
}

#[test]
fn first_message_is_fetched_once_headers_arrive() {
    let mut app = app_on_inbox(3);
    app.view_state.message = Some(s("stale"));
    match app.select_first_message_if_not_selected() {
        Some(Actions::GetMessage { login, folder, id }) => {
            assert_eq!(login, "alice");
            assert_eq!(folder, "INBOX");
            assert_eq!(id, "100");
        }
        other => panic!("unexpected {:?}", other),
    }
    assert_eq!(app.messages_table_selected, Some(0));
    assert!(app.view_state.message.is_none());
}

#[test]
fn message_selection_wraps_around() {
    let mut app = app_on_inbox(3);
    app.messages_table_selected = Some(0);
    match app.select_previous_message() {
        Some(Actions::GetMessage { id, .. }) => assert_eq!(id, "102"),
        other => panic!("unexpected {:?}", other),
    }
    match app.select_next_message() {
        Some(Actions::GetMessage { id, .. }) => assert_eq!(id, "100"),
        other => panic!("unexpected {:?}", other),
    }
    app.view_state.messages = Some(Vec::new());
    assert!(app.select_next_message().is_none());
}

#[test]
fn next_page_after_full_page_then_none_after_short_page() {
    let mut app = app_on_inbox(PAGE_SIZE);
    app.messages_table_selected = Some(4);
    expect_list_envelopes(app.select_next_message_page(), "alice", "INBOX", 1);
    assert_eq!(app.messages_table_page, 1);
    assert!(app.messages_table_selected.is_none());
    assert!(app.view_state.messages.is_none());
    app.view_state.messages = Some(envelopes(4));
    assert!(app.select_next_message_page().is_none());
    assert_eq!(app.messages_table_page, 1);
    assert_eq!(app.view_state.messages.as_ref().map(|m| m.len()), Some(4));
}

#[test]
fn previous_page_stops_at_the_first() {
    let mut app = app_on_inbox(4);
    assert!(app.select_previous_message_page().is_none());
    app.messages_table_page = 2;
    expect_list_envelopes(app.select_previous_message_page(), "alice", "INBOX", 1);
    assert_eq!(app.messages_table_page, 1);
}

#[test]
fn keys_move_focus_and_quit() {
    let mut app = app_with_accounts(&["alice"]);
    assert!(matches!(app.handle_key_event(Key::Char('2')), Effect::Nothing));
    assert_eq!(app.selected_widget, SelectedWidget::Folders);
    assert!(matches!(app.handle_key_event(Key::Char('x')), Effect::OpenAds));
    assert!(matches!(app.handle_key_event(Key::Char('s')), Effect::Nothing));
    assert_eq!(app.selected_widget, SelectedWidget::Send);
    assert!(!app.exit);
    app.selected_widget = SelectedWidget::Message;
    app.handle_key_event(Key::Char('q'));
    assert!(app.exit);
}

#[test]
fn arrow_keys_submit_intents() {
    let mut app = app_on_inbox(PAGE_SIZE);
    match app.handle_key_event(Key::Right) {
        Effect::Submit(a) => expect_list_envelopes(Some(a), "alice", "INBOX", 1),
        other => panic!("unexpected {:?}", other),
    }
    app.selected_widget = SelectedWidget::Accounts;
    match app.handle_key_event(Key::Char('j')) {
        Effect::Submit(Actions::ListFolders { login }) => assert_eq!(login, "bob"),
        other => panic!("unexpected {:?}", other),
    }
    app.selected_widget = SelectedWidget::Message;
    assert!(matches!(app.handle_key_event(Key::Down), Effect::Nothing));
}

#[test]
fn send_form_editing() {
    let mut app = app_with_accounts(&["alice"]);
    app.selected_widget = SelectedWidget::Send;
    for c in "bob@x".chars() {
        app.handle_key_event(Key::Char(c));
    }
    app.handle_key_event(Key::Backspace);
    assert_eq!(app.send_to, "bob@");
    app.handle_key_event(Key::Tab);
    assert_eq!(app.selected_send_widget, SelectedSendWidget::Subject);
    app.handle_key_event(Key::Char('q'));
    assert_eq!(app.send_subject, "q");
    assert!(!app.exit);
    app.handle_key_event(Key::BackTab);
    app.handle_key_event(Key::BackTab);
    assert_eq!(app.selected_send_widget, SelectedSendWidget::Text);
    app.handle_key_event(Key::Backspace);
    assert_eq!(app.send_text, "");
    app.handle_key_event(Key::Esc);
    assert_eq!(app.selected_widget, SelectedWidget::Accounts);
    assert_eq!(app.send_to, "");
    assert_eq!(app.send_subject, "");
}

#[test]
fn account_argument_splits_at_the_colon() {
    assert_eq!(parse_account(&s("alice@example.org:secret")), Ok((s("alice@example.org"), s("secret"))));
    assert_eq!(parse_account(&s(":")), Ok((s(""), s(""))));
    assert_eq!(parse_account(&s("alice")), Err(ArgsError::InvalidFormat));
    assert_eq!(parse_account(&s("a:b:c")), Err(ArgsError::InvalidFormat));
    assert_eq!(parse_account(&s("")), Err(ArgsError::InvalidFormat));
}

#[test]
fn account_arguments_need_one_and_all_well_formed() {
    assert_eq!(parse_accounts(&Vec::new()), Err(ArgsError::NoAccounts));
    assert_eq!(parse_accounts(&vec![s("a:1"), s("b")]), Err(ArgsError::InvalidFormat));
    assert_eq!(
        parse_accounts(&vec![s("a:1"), s("b:2")]),
        Ok(vec![(s("a"), s("1")), (s("b"), s("2"))])
    );
}
