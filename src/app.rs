use vstd::prelude::*;

use crate::actions::Actions;
use crate::state::{ViewState, PAGE_SIZE};

verus! {

/// The pane that receives key presses.
#[derive(Clone, Copy, Debug, PartialEq, Eq, Hash, Structural)]
pub enum SelectedWidget {
    Accounts,
    Folders,
    Messages,
    Message,
    Send,
}

/// The input field of the send form that receives typed characters.
#[derive(Clone, Copy, Debug, PartialEq, Eq, Hash, Structural)]
pub enum SelectedSendWidget {
    To,
    Subject,
    Text,
}

/// A key press, as far as the screen reacts to it.
#[derive(Clone, Copy, Debug, PartialEq, Eq, Structural)]
pub enum Key {
    Char(char),
    Up,
    Down,
    Left,
    Right,
    Esc,
    Tab,
    BackTab,
    Backspace,
    Other,
}

/// What the caller has to do after a key press.
#[derive(Debug)]
pub enum Effect {
    Nothing,
    Submit(Actions),
    OpenAds,
}

pub open spec fn submit_effect(o: Option<Actions>) -> Effect {
    match o {
        Some(a) => Effect::Submit(a),
        None => Effect::Nothing,
    }
}

fn effect_of(o: Option<Actions>) -> (r: Effect)
    ensures
        r == submit_effect(o),
{
    match o {
        Some(a) => Effect::Submit(a),
        None => Effect::Nothing,
    }
}

/// The index before `i` in a cyclic list of `len` entries (`len > 0`).
pub open spec fn prev_index(i: usize, len: usize) -> usize {
    if i == 0 || i > len {
        (len - 1) as usize
    } else {
        (i - 1) as usize
    }
}

/// The index after `i` in a cyclic list of `len` entries (`len > 0`).
pub open spec fn next_index(i: usize, len: usize) -> usize {
    if i + 1 >= len {
        0
    } else {
        (i + 1) as usize
    }
}

fn previous_index(i: usize, len: usize) -> (r: usize)
    requires
        len > 0,
    ensures
        r == prev_index(i, len),
        r < len,
{
    if i == 0 || i > len {
        len - 1
    } else {
        i - 1
    }
}

fn following_index(i: usize, len: usize) -> (r: usize)
    requires
        len > 0,
    ensures
        r == next_index(i, len),
        r < len,
{
    if i >= len - 1 {
        0
    } else {
        i + 1
    }
}

/// Relies on String::push: appends one character.
#[verifier::external_body]
fn push_char(s: &mut String, c: char)
    ensures
        final(s)@ == old(s)@.push(c),
{
    s.push(c)
}

/// Relies on String::pop: removes the last character, if there is one.
#[verifier::external_body]
fn pop_char(s: &mut String) -> (r: Option<char>)
    ensures
        old(s)@.len() == 0 ==> r is None && final(s)@ == old(s)@,
        old(s)@.len() > 0 ==> r == Some(old(s)@.last()) && final(s)@ == old(s)@.drop_last(),
{
    s.pop()
}

/// What the screen remembers between frames: the focused pane, the selected
/// entries, the page of message headers, the last snapshot and the send form.
#[derive(Debug)]
pub struct App {
    pub selected_widget: SelectedWidget,
    pub selected_send_widget: SelectedSendWidget,
    pub accounts_list_selected: Option<usize>,
    pub folders_list_selected: Option<usize>,
    pub messages_table_selected: Option<usize>,
    pub messages_table_page: usize,
    pub view_state: ViewState,
    pub send_to: String,
    pub send_subject: String,
    pub send_text: String,
    pub exit: bool,
}

impl App {
    pub open spec fn login_at(self, i: usize) -> Option<String> {
        if i < self.view_state.accounts@.len() {
            Some(self.view_state.accounts@[i as int])
        } else {
            None
        }
    }

    pub open spec fn selected_login(self) -> Option<String> {
        match self.accounts_list_selected {
            Some(i) => self.login_at(i),
            None => None,
        }
    }

    pub open spec fn folder_at(self, j: usize) -> Option<String> {
        match self.view_state.folders {
            Some(f) => if j < f@.len() {
                Some(f@[j as int])
            } else {
                None
            },
            None => None,
        }
    }

    pub open spec fn selected_folder(self) -> Option<String> {
        match self.folders_list_selected {
            Some(j) => self.folder_at(j),
            None => None,
        }
    }

    pub open spec fn envelope_id_at(self, k: usize) -> Option<String> {
        match self.view_state.messages {
            Some(m) => if k < m@.len() {
                Some(m@[k as int].id)
            } else {
                None
            },
            None => None,
        }
    }

    pub open spec fn without_folders(self) -> App {
        App {
            folders_list_selected: None,
            view_state: ViewState { folders: None, ..self.view_state },
            ..self
        }
    }

    pub open spec fn without_messages(self) -> App {
        App {
            messages_table_selected: None,
            messages_table_page: 0,
            view_state: ViewState { messages: None, ..self.view_state },
            ..self
        }
    }

    pub open spec fn without_message(self) -> App {
        App { view_state: ViewState { message: None, ..self.view_state }, ..self }
    }

    /// Selecting account `i`: everything below it is dropped and its folders
    /// are asked for.
    pub open spec fn with_account(self, i: usize) -> (App, Option<Actions>) {
        (
            App { accounts_list_selected: Some(i), ..self }.without_folders().without_messages().without_message(),
            match self.login_at(i) {
                Some(l) => Some(Actions::ListFolders { login: l }),
                None => None,
            },
        )
    }

    pub open spec fn previous_account(self) -> (App, Option<Actions>) {
        match self.accounts_list_selected {
            Some(i) => if self.view_state.accounts@.len() > 0 {
                self.with_account(prev_index(i, self.view_state.accounts@.len() as usize))
            } else {
                (self, None)
            },
            None => (self, None),
        }
    }

    pub open spec fn next_account(self) -> (App, Option<Actions>) {
        match self.accounts_list_selected {
            Some(i) => if self.view_state.accounts@.len() > 0 {
                self.with_account(next_index(i, self.view_state.accounts@.len() as usize))
            } else {
                (self, None)
            },
            None => (self, None),
        }
    }

    /// Selecting folder `j` of the selected account: the message headers of
    /// its first page are asked for.
    pub open spec fn with_folder(self, j: usize) -> (App, Option<Actions>) {
        match (self.selected_login(), self.folder_at(j)) {
            (Some(l), Some(f)) => (
                App { folders_list_selected: Some(j), ..self }.without_messages().without_message(),
                Some(Actions::ListEnvelopes { login: l, folder: f, page: 0 }),
            ),
            _ => (self, None),
        }
    }

    pub open spec fn first_folder(self) -> (App, Option<Actions>) {
        if self.folders_list_selected is None && self.view_state.folders is Some {
            let a = App { folders_list_selected: Some(0), ..self };
            match (a.selected_login(), a.folder_at(0)) {
                (Some(l), Some(f)) => (
                    a.without_messages().without_message(),
                    Some(Actions::ListEnvelopes { login: l, folder: f, page: 0 }),
                ),
                _ => (a, None),
            }
        } else {
            (self, None)
        }
    }

    pub open spec fn previous_folder(self) -> (App, Option<Actions>) {
        match (self.selected_login(), self.folders_list_selected, self.view_state.folders) {
            (Some(_), Some(j), Some(f)) => if f@.len() > 0 {
                self.with_folder(prev_index(j, f@.len() as usize))
            } else {
                (self, None)
            },
            _ => (self, None),
        }
    }

    pub open spec fn next_folder(self) -> (App, Option<Actions>) {
        match (self.selected_login(), self.folders_list_selected, self.view_state.folders) {
            (Some(_), Some(j), Some(f)) => if f@.len() > 0 {
                self.with_folder(next_index(j, f@.len() as usize))
            } else {
                (self, None)
            },
            _ => (self, None),
        }
    }

    /// The body of the selected message header is asked for, once the account
    /// and folder it belongs to are known.
    pub open spec fn fetch_selected(self) -> Option<Actions> {
        match (self.selected_login(), self.selected_folder(), self.messages_table_selected) {
            (Some(l), Some(f), Some(k)) => match self.envelope_id_at(k) {
                Some(id) => Some(Actions::GetMessage { login: l, folder: f, id }),
                None => None,
            },
            _ => None,
        }
    }

    pub open spec fn with_message(self, k: usize) -> (App, Option<Actions>) {
        let a = App { messages_table_selected: Some(k), ..self }.without_message();
        (a, a.fetch_selected())
    }

    pub open spec fn first_message(self) -> (App, Option<Actions>) {
        if self.messages_table_selected is None && self.view_state.messages is Some {
            self.with_message(0)
        } else {
            (self, None)
        }
    }

    pub open spec fn previous_message(self) -> (App, Option<Actions>) {
        match (self.messages_table_selected, self.view_state.messages) {
            (Some(k), Some(m)) => if m@.len() > 0 {
                self.with_message(prev_index(k, m@.len() as usize))
            } else {
                (self, None)
            },
            _ => (self, None),
        }
    }

    pub open spec fn next_message(self) -> (App, Option<Actions>) {
        match (self.messages_table_selected, self.view_state.messages) {
            (Some(k), Some(m)) => if m@.len() > 0 {
                self.with_message(next_index(k, m@.len() as usize))
            } else {
                (self, None)
            },
            _ => (self, None),
        }
    }

    /// Moving to page `p` of the selected folder: the shown headers are
    /// dropped and that page is asked for.
    pub open spec fn with_page(self, p: usize) -> (App, Option<Actions>) {
        match (self.selected_login(), self.selected_folder()) {
            (Some(l), Some(f)) => (
                App {
                    messages_table_selected: None,
                    messages_table_page: p,
                    view_state: ViewState { messages: None, ..self.view_state },
                    ..self
                },
                Some(Actions::ListEnvelopes { login: l, folder: f, page: p }),
            ),
            _ => (self, None),
        }
    }

    pub open spec fn previous_page(self) -> (App, Option<Actions>) {
        if self.messages_table_page > 0 {
            self.with_page((self.messages_table_page - 1) as usize)
        } else {
            (self, None)
        }
    }

    /// There is a next page only when the shown page is full.
    pub open spec fn next_page(self) -> (App, Option<Actions>) {
        match self.view_state.messages {
            Some(m) => if m@.len() == PAGE_SIZE && self.messages_table_page < usize::MAX {
                self.with_page((self.messages_table_page + 1) as usize)
            } else {
                (self, None)
            },
            None => (self, None),
        }
    }

    /// The reaction to a key while one of the panes has the focus.
    pub open spec fn on_pane_key(self, key: Key) -> (App, Effect) {
        let w = self.selected_widget;
        let to = |w2: SelectedWidget| (App { selected_widget: w2, ..self }, Effect::Nothing);
        let go = |r: (App, Option<Actions>)| (r.0, submit_effect(r.1));
        match key {
            Key::Char('q') => (App { exit: true, ..self }, Effect::Nothing),
            Key::Char('x') => (self, Effect::OpenAds),
            Key::Char('1') => to(SelectedWidget::Accounts),
            Key::Char('2') => to(SelectedWidget::Folders),
            Key::Char('3') => to(SelectedWidget::Messages),
            Key::Char('4') => to(SelectedWidget::Message),
            Key::Char('s') => to(SelectedWidget::Send),
            Key::Up | Key::Char('k') => match w {
                SelectedWidget::Accounts => go(self.previous_account()),
                SelectedWidget::Folders => go(self.previous_folder()),
                SelectedWidget::Messages => go(self.previous_message()),
                _ => (self, Effect::Nothing),
            },
            Key::Down | Key::Char('j') => match w {
                SelectedWidget::Accounts => go(self.next_account()),
                SelectedWidget::Folders => go(self.next_folder()),
                SelectedWidget::Messages => go(self.next_message()),
                _ => (self, Effect::Nothing),
            },
            Key::Left | Key::Char('p') => if w == SelectedWidget::Messages {
                go(self.previous_page())
            } else {
                (self, Effect::Nothing)
            },
            Key::Right | Key::Char('n') => if w == SelectedWidget::Messages {
                go(self.next_page())
            } else {
                (self, Effect::Nothing)
            },
            _ => (self, Effect::Nothing),
        }
    }

    /// The panes other than the send form are as in `other`.
    pub open spec fn same_panes(self, other: App) -> bool {
        &&& self.accounts_list_selected == other.accounts_list_selected
        &&& self.folders_list_selected == other.folders_list_selected
        &&& self.messages_table_selected == other.messages_table_selected
        &&& self.messages_table_page == other.messages_table_page
        &&& self.view_state == other.view_state
        &&& self.exit == other.exit
    }

    /// The reaction of the send form to a key: the focused pane, the focused
    /// field, and the recipient, subject and text afterwards.
    pub open spec fn on_form_key(self, key: Key) -> (
        SelectedWidget,
        SelectedSendWidget,
        Seq<char>,
        Seq<char>,
        Seq<char>,
    ) {
        let (w, f, to, subject, text) = (
            self.selected_widget,
            self.selected_send_widget,
            self.send_to@,
            self.send_subject@,
            self.send_text@,
        );
        let cut = |s: Seq<char>|
            if s.len() > 0 {
                s.drop_last()
            } else {
                s
            };
        match key {
            Key::Esc => (SelectedWidget::Accounts, f, Seq::empty(), Seq::empty(), Seq::empty()),
            Key::Tab => (
                w,
                match f {
                    SelectedSendWidget::To => SelectedSendWidget::Subject,
                    SelectedSendWidget::Subject => SelectedSendWidget::Text,
                    SelectedSendWidget::Text => SelectedSendWidget::To,
                },
                to,
                subject,
                text,
            ),
            Key::BackTab => (
                w,
                match f {
                    SelectedSendWidget::To => SelectedSendWidget::Text,
                    SelectedSendWidget::Subject => SelectedSendWidget::To,
                    SelectedSendWidget::Text => SelectedSendWidget::Subject,
                },
                to,
                subject,
                text,
            ),
            Key::Char(c) => match f {
                SelectedSendWidget::To => (w, f, to.push(c), subject, text),
                SelectedSendWidget::Subject => (w, f, to, subject.push(c), text),
                SelectedSendWidget::Text => (w, f, to, subject, text.push(c)),
            },
            Key::Backspace => match f {
                SelectedSendWidget::To => (w, f, cut(to), subject, text),
                SelectedSendWidget::Subject => (w, f, to, cut(subject), text),
                SelectedSendWidget::Text => (w, f, to, subject, cut(text)),
            },
            _ => (w, f, to, subject, text),
        }
    }

    /// The state before the first frame: the accounts pane has the focus and
    /// nothing is selected or shown yet.
    pub fn new() -> (r: App)
        ensures
            r.selected_widget == SelectedWidget::Accounts,
            r.selected_send_widget == SelectedSendWidget::To,
            r.accounts_list_selected is None,
            r.folders_list_selected is None,
            r.messages_table_selected is None,
            r.messages_table_page == 0,
            r.view_state@ == (crate::state::ViewModel {
                accounts: Seq::empty(),
                folders: None,
                messages: None,
                message: None,
            }),
            r.send_to@ == Seq::<char>::empty(),
            r.send_subject@ == Seq::<char>::empty(),
            r.send_text@ == Seq::<char>::empty(),
            !r.exit,
    {
        App {
            selected_widget: SelectedWidget::Accounts,
            selected_send_widget: SelectedSendWidget::To,
            accounts_list_selected: None,
            folders_list_selected: None,
            messages_table_selected: None,
            messages_table_page: 0,
            view_state: ViewState::default(),
            send_to: String::new(),
            send_subject: String::new(),
            send_text: String::new(),
            exit: false,
        }
    }

    fn clone_login_at(&self, i: usize) -> (r: Option<String>)
        ensures
            r == self.login_at(i),
    {
        if i < self.view_state.accounts.len() {
            Some(self.view_state.accounts[i].clone())
        } else {
            None
        }
    }

    fn clone_folder_at(&self, j: usize) -> (r: Option<String>)
        ensures
            r == self.folder_at(j),
    {
        match &self.view_state.folders {
            Some(f) => if j < f.len() {
                Some(f[j].clone())
            } else {
                None
            },
            None => None,
        }
    }

    fn clone_envelope_id_at(&self, k: usize) -> (r: Option<String>)
        ensures
            r == self.envelope_id_at(k),
    {
        match &self.view_state.messages {
            Some(m) => if k < m.len() {
                Some(m[k].id.clone())
            } else {
                None
            },
            None => None,
        }
    }

    fn clear_folders(&mut self)
        ensures
            *final(self) == old(self).without_folders(),
    {
        self.folders_list_selected = None;
        self.view_state.folders = None;
    }

    fn clear_messages(&mut self)
        ensures
            *final(self) == old(self).without_messages(),
    {
        self.messages_table_selected = None;
        self.messages_table_page = 0;
        self.view_state.messages = None;
    }

    fn clear_message(&mut self)
        ensures
            *final(self) == old(self).without_message(),
    {
        self.view_state.message = None;
    }

    fn select_account(&mut self, i: usize) -> (r: Option<Actions>)
        ensures
            (*final(self), r) == old(self).with_account(i),
    {
        let login = self.clone_login_at(i);
        self.accounts_list_selected = Some(i);
        self.clear_folders();
        self.clear_messages();
        self.clear_message();
        match login {
            Some(login) => Some(Actions::ListFolders { login }),
            None => None,
        }
    }

    /// Selects the first account and asks for its folders.
    pub fn select_first_account(&mut self) -> (r: Option<Actions>)
        ensures
            (*final(self), r) == old(self).with_account(0),
    {
        self.select_account(0)
    }

    pub fn select_previous_account(&mut self) -> (r: Option<Actions>)
        ensures
            (*final(self), r) == old(self).previous_account(),
    {
        match self.accounts_list_selected {
            Some(i) => {
                let len = self.view_state.accounts.len();
                if len > 0 {
                    let n = previous_index(i, len);
                    self.select_account(n)
                } else {
                    None
                }
            },
            None => None,
        }
    }

    pub fn select_next_account(&mut self) -> (r: Option<Actions>)
        ensures
            (*final(self), r) == old(self).next_account(),
    {
        match self.accounts_list_selected {
            Some(i) => {
                let len = self.view_state.accounts.len();
                if len > 0 {
                    let n = following_index(i, len);
                    self.select_account(n)
                } else {
                    None
                }
            },
            None => None,
        }
    }

    fn selected_login_clone(&self) -> (r: Option<String>)
        ensures
            r == self.selected_login(),
    {
        match self.accounts_list_selected {
            Some(i) => self.clone_login_at(i),
            None => None,
        }
    }

    fn selected_folder_clone(&self) -> (r: Option<String>)
        ensures
            r == self.selected_folder(),
    {
        match self.folders_list_selected {
            Some(j) => self.clone_folder_at(j),
            None => None,
        }
    }

    fn select_folder(&mut self, j: usize) -> (r: Option<Actions>)
        ensures
            (*final(self), r) == old(self).with_folder(j),
    {
        let login = self.selected_login_clone();
        let folder = self.clone_folder_at(j);
        match (login, folder) {
            (Some(login), Some(folder)) => {
                self.folders_list_selected = Some(j);
                self.clear_messages();
                self.clear_message();
                Some(Actions::ListEnvelopes { login, folder, page: 0 })
            },
            _ => None,
        }
    }

    /// Once folders are shown and none is selected, selects the first one and
    /// asks for its first page of message headers.
    pub fn select_first_folder_if_not_selected(&mut self) -> (r: Option<Actions>)
        ensures
            (*final(self), r) == old(self).first_folder(),
    {
        if self.folders_list_selected.is_none() && self.view_state.folders.is_some() {
            self.folders_list_selected = Some(0);
        } else {
            return None;
        }
        let login = self.selected_login_clone();
        let folder = self.clone_folder_at(0);
        match (login, folder) {
            (Some(login), Some(folder)) => {
                self.clear_messages();
                self.clear_message();
                Some(Actions::ListEnvelopes { login, folder, page: 0 })
            },
            _ => None,
        }
    }

    fn folder_count(&self) -> (r: Option<usize>)
        ensures
            r == match self.view_state.folders {
                Some(f) => Some(f@.len() as usize),
                None => None::<usize>,
            },
            self.view_state.folders matches Some(f) ==> f@.len() <= usize::MAX,
    {
        match &self.view_state.folders {
            Some(f) => Some(f.len()),
            None => None,
        }
    }

    pub fn select_previous_folder(&mut self) -> (r: Option<Actions>)
        ensures
            (*final(self), r) == old(self).previous_folder(),
    {
        let login = self.selected_login_clone();
        match (login, self.folders_list_selected, self.folder_count()) {
            (Some(_), Some(j), Some(len)) => if len > 0 {
                let n = previous_index(j, len);
                self.select_folder(n)
            } else {
                None
            },
            _ => None,
        }
    }

    pub fn select_next_folder(&mut self) -> (r: Option<Actions>)
        ensures
            (*final(self), r) == old(self).next_folder(),
    {
        let login = self.selected_login_clone();
        match (login, self.folders_list_selected, self.folder_count()) {
            (Some(_), Some(j), Some(len)) => if len > 0 {
                let n = following_index(j, len);
                self.select_folder(n)
            } else {
                None
            },
            _ => None,
        }
    }

    fn fetch_selected_message(&self) -> (r: Option<Actions>)
        ensures
            r == self.fetch_selected(),
    {
        let login = self.selected_login_clone();
        let folder = self.selected_folder_clone();
        match (login, folder, self.messages_table_selected) {
            (Some(login), Some(folder), Some(k)) => match self.clone_envelope_id_at(k) {
                Some(id) => Some(Actions::GetMessage { login, folder, id }),
                None => None,
            },
            _ => None,
        }
    }

    fn select_message(&mut self, k: usize) -> (r: Option<Actions>)
        ensures
            (*final(self), r) == old(self).with_message(k),
    {
        self.messages_table_selected = Some(k);
        self.clear_message();
        self.fetch_selected_message()
    }

    /// Once message headers are shown and none is selected, selects the first
    /// one and asks for its body.
    pub fn select_first_message_if_not_selected(&mut self) -> (r: Option<Actions>)
        ensures
            (*final(self), r) == old(self).first_message(),
    {
        if self.messages_table_selected.is_none() && self.view_state.messages.is_some() {
            self.select_message(0)
        } else {
            None
        }
    }

    fn message_count(&self) -> (r: Option<usize>)
        ensures
            r == match self.view_state.messages {
                Some(m) => Some(m@.len() as usize),
                None => None::<usize>,
            },
            self.view_state.messages matches Some(m) ==> m@.len() <= usize::MAX,
    {
        match &self.view_state.messages {
            Some(m) => Some(m.len()),
            None => None,
        }
    }

    pub fn select_previous_message(&mut self) -> (r: Option<Actions>)
        ensures
            (*final(self), r) == old(self).previous_message(),
    {
        match (self.messages_table_selected, self.message_count()) {
            (Some(k), Some(len)) => if len > 0 {
                let n = previous_index(k, len);
                self.select_message(n)
            } else {
                None
            },
            _ => None,
        }
    }

    pub fn select_next_message(&mut self) -> (r: Option<Actions>)
        ensures
            (*final(self), r) == old(self).next_message(),
    {
        match (self.messages_table_selected, self.message_count()) {
            (Some(k), Some(len)) => if len > 0 {
                let n = following_index(k, len);
                self.select_message(n)
            } else {
                None
            },
            _ => None,
        }
    }

    fn select_page(&mut self, p: usize) -> (r: Option<Actions>)
        ensures
            (*final(self), r) == old(self).with_page(p),
    {
        let login = self.selected_login_clone();
        let folder = self.selected_folder_clone();
        match (login, folder) {
            (Some(login), Some(folder)) => {
                self.messages_table_selected = None;
                self.messages_table_page = p;
                self.view_state.messages = None;
                Some(Actions::ListEnvelopes { login, folder, page: p })
            },
            _ => None,
        }
    }

    pub fn select_previous_message_page(&mut self) -> (r: Option<Actions>)
        ensures
            (*final(self), r) == old(self).previous_page(),
    {
        if self.messages_table_page > 0 {
            let p = self.messages_table_page - 1;
            self.select_page(p)
        } else {
            None
        }
    }

    /// Asks for the next page of message headers, which exists only when the
    /// shown page is full.
    pub fn select_next_message_page(&mut self) -> (r: Option<Actions>)
        ensures
            (*final(self), r) == old(self).next_page(),
    {
        match self.message_count() {
            Some(len) => if len == PAGE_SIZE && self.messages_table_page < usize::MAX {
                let p = self.messages_table_page + 1;
                self.select_page(p)
            } else {
                None
            },
            None => None,
        }
    }

    fn edit_form(&mut self, key: Key)
        ensures
            final(self).same_panes(*old(self)),
            (
                final(self).selected_widget,
                final(self).selected_send_widget,
                final(self).send_to@,
                final(self).send_subject@,
                final(self).send_text@,
            ) == old(self).on_form_key(key),
    {
        match key {
            Key::Esc => {
                self.send_to = String::new();
                self.send_text = String::new();
                self.send_subject = String::new();
                self.selected_widget = SelectedWidget::Accounts;
            },
            Key::Tab => {
                self.selected_send_widget = match self.selected_send_widget {
                    SelectedSendWidget::To => SelectedSendWidget::Subject,
                    SelectedSendWidget::Subject => SelectedSendWidget::Text,
                    SelectedSendWidget::Text => SelectedSendWidget::To,
                };
            },
            Key::BackTab => {
                self.selected_send_widget = match self.selected_send_widget {
                    SelectedSendWidget::To => SelectedSendWidget::Text,
                    SelectedSendWidget::Subject => SelectedSendWidget::To,
                    SelectedSendWidget::Text => SelectedSendWidget::Subject,
                };
            },
            Key::Char(c) => match self.selected_send_widget {
                SelectedSendWidget::To => push_char(&mut self.send_to, c),
                SelectedSendWidget::Subject => push_char(&mut self.send_subject, c),
                SelectedSendWidget::Text => push_char(&mut self.send_text, c),
            },
            Key::Backspace => match self.selected_send_widget {
                SelectedSendWidget::To => {
                    let _ = pop_char(&mut self.send_to);
                },
                SelectedSendWidget::Subject => {
                    let _ = pop_char(&mut self.send_subject);
                },
                SelectedSendWidget::Text => {
                    let _ = pop_char(&mut self.send_text);
                },
            },
            _ => {},
        }
    }

    /// Reacts to a key press: moves the focus or a selection, edits the send
    /// form, or asks the caller to quit, submit an intent or show the ads.
    pub fn handle_key_event(&mut self, key: Key) -> (r: Effect)
        ensures
            old(self).selected_widget != SelectedWidget::Send ==> (*final(self), r) == old(
                self,
            ).on_pane_key(key),
            old(self).selected_widget == SelectedWidget::Send ==> {
                &&& r is Nothing
                &&& final(self).same_panes(*old(self))
                &&& (
                    final(self).selected_widget,
                    final(self).selected_send_widget,
                    final(self).send_to@,
                    final(self).send_subject@,
                    final(self).send_text@,
                ) == old(self).on_form_key(key)
            },
    {
        let w = self.selected_widget;
        if w == SelectedWidget::Send {
            self.edit_form(key);
            return Effect::Nothing;
        }
        match key {
            Key::Char('q') => {
                self.exit = true;
                Effect::Nothing
            },
            Key::Char('x') => Effect::OpenAds,
            Key::Char('1') => {
                self.selected_widget = SelectedWidget::Accounts;
                Effect::Nothing
            },
            Key::Char('2') => {
                self.selected_widget = SelectedWidget::Folders;
                Effect::Nothing
            },
            Key::Char('3') => {
                self.selected_widget = SelectedWidget::Messages;
                Effect::Nothing
            },
            Key::Char('4') => {
                self.selected_widget = SelectedWidget::Message;
                Effect::Nothing
            },
            Key::Char('s') => {
                self.selected_widget = SelectedWidget::Send;
                Effect::Nothing
            },
            Key::Up | Key::Char('k') => match w {
                SelectedWidget::Accounts => effect_of(self.select_previous_account()),
                SelectedWidget::Folders => effect_of(self.select_previous_folder()),
                SelectedWidget::Messages => effect_of(self.select_previous_message()),
                _ => Effect::Nothing,
            },
            Key::Down | Key::Char('j') => match w {
                SelectedWidget::Accounts => effect_of(self.select_next_account()),
                SelectedWidget::Folders => effect_of(self.select_next_folder()),
                SelectedWidget::Messages => effect_of(self.select_next_message()),
                _ => Effect::Nothing,
            },
            Key::Left | Key::Char('p') => if w == SelectedWidget::Messages {
                effect_of(self.select_previous_message_page())
            } else {
                Effect::Nothing
            },
            Key::Right | Key::Char('n') => if w == SelectedWidget::Messages {
                effect_of(self.select_next_message_page())
            } else {
                Effect::Nothing
            },
            _ => Effect::Nothing,
        }
    }
}

} // verus!
