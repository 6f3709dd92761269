use cyu_login::pages::login::{
    LoginPage, LoginPageAction, LoginPageInput, LoginPageMessage, LoginPageOutput,
};
use cyu_login::utils::auth::AuthOutcome;
use cyu_login::utils::config::Config;

/// A credential store that records what it is asked.
struct RecordingStore {
    holds_credentials: bool,
    removals: usize,
}

impl RecordingStore {
    fn remove(&mut self) {
        self.removals += 1;
        self.holds_credentials = false;
    }
}

/// An authentication client that knows one account and answers in its own time.
struct RecordingClient {
    in_flight: Vec<(String, String)>,
    started: usize,
    most_in_flight: usize,
}

impl RecordingClient {
    fn login(&mut self, username: String, password: String) {
        self.in_flight.push((username, password));
        self.started += 1;
        if self.in_flight.len() > self.most_in_flight {
            self.most_in_flight = self.in_flight.len();
        }
    }

    fn resolve(&mut self) -> Option<AuthOutcome> {
        if self.in_flight.is_empty() {
            return None;
        }
        let (username, password) = self.in_flight.remove(0);
        if username == "nobody" {
            Some(AuthOutcome::TransportError("unreachable".to_string()))
        } else if username == "alice" && password == "right" {
            Some(AuthOutcome::Success)
        } else {
            Some(AuthOutcome::Unauthorized)
        }
    }
}

/// A host: it performs what the page asks for and nothing else.
struct Host {
    page: LoginPage,
    config: Config,
    store: RecordingStore,
    client: RecordingClient,
    outputs: Vec<LoginPageOutput>,
    reports: Vec<String>,
}

impl Host {
    fn new(save_credentials: bool) -> Host {
        let config = Config::new(save_credentials);
        Host {
            page: LoginPage::init(&config),
            config,
            store: RecordingStore { holds_credentials: true, removals: 0 },
            client: RecordingClient { in_flight: Vec::new(), started: 0, most_in_flight: 0 },
            outputs: Vec::new(),
            reports: Vec::new(),
        }
    }

    fn perform(&mut self, action: LoginPageAction) {
        match action {
            LoginPageAction::Login { username, password } => self.client.login(username, password),
            LoginPageAction::RemoveAuth => self.store.remove(),
            LoginPageAction::Output(output) => self.outputs.push(output),
            LoginPageAction::Report(report) => self.reports.push(report.text()),
        }
    }

    fn input(&mut self, msg: LoginPageInput) {
        if let Some(action) = self.page.update(msg, &mut self.config) {
            self.perform(action);
        }
    }

    fn submit(&mut self, username: &str, password: &str) {
        self.input(LoginPageInput::Submit {
            username: username.to_string(),
            password: password.to_string(),
        });
    }

    fn toggle(&mut self, active: bool) {
        self.input(LoginPageInput::ToggleSavePassword { active });
    }

    fn complete(&mut self) -> bool {
        match self.client.resolve() {
            Some(outcome) => {
                let action = self.page.update_cmd(LoginPageMessage::from_outcome(outcome));
                self.perform(action);
                true
            }
            None => false,
        }
    }
}

#[test]
fn scenario_toggle_off_is_written_and_removal_is_requested() {
    let mut config = Config::new(true);
    let mut store = RecordingStore { holds_credentials: true, removals: 0 };
    let mut page = LoginPage::init(&config);
    assert!(!page.is_processing());

    let action = page.toggle_save_preference(false, &mut config);
    assert!(!config.save_credentials());
    assert_eq!(store.removals, 0);
    assert!(store.holds_credentials);

    assert_eq!(action, Some(LoginPageAction::RemoveAuth));
    if let Some(LoginPageAction::RemoveAuth) = action {
        store.remove();
    }
    assert_eq!(store.removals, 1);
    assert!(!store.holds_credentials);
    assert!(!config.save_credentials());
}

#[test]
fn host_toggle_off_issues_one_removal_per_toggle() {
    let mut host = Host::new(true);
    host.toggle(false);
    assert!(!host.config.save_credentials());
    assert_eq!(host.store.removals, 1);
    host.toggle(true);
    assert!(host.config.save_credentials());
    assert_eq!(host.store.removals, 1);
    host.toggle(false);
    host.toggle(false);
    assert_eq!(host.store.removals, 3);
    assert!(!host.config.save_credentials());
    assert!(!host.page.save_credentials());
    assert_eq!(host.client.started, 0);
    assert!(host.outputs.is_empty());
    assert!(host.reports.is_empty());
}

#[test]
fn host_repeated_submits_start_one_exchange() {
    let mut host = Host::new(false);
    host.submit("alice", "right");
    host.submit("alice", "right");
    host.submit("mallory", "guess");
    host.submit("", "");
    assert_eq!(host.client.started, 1);
    assert_eq!(host.client.in_flight, vec![("alice".to_string(), "right".to_string())]);
    assert!(host.page.is_processing());

    assert!(host.complete());
    assert!(!host.page.is_processing());
    assert_eq!(host.outputs, vec![LoginPageOutput::LoggedIn]);
    assert!(!host.complete());
    assert_eq!(host.outputs, vec![LoginPageOutput::LoggedIn]);
    assert!(host.reports.is_empty());
}

#[test]
fn host_never_has_two_exchanges_in_flight() {
    let mut host = Host::new(true);
    let attempts = vec![
        ("alice", "wrong"),
        ("alice", "wrong again"),
        ("nobody", "anything"),
        ("alice", "right"),
        ("bob", "right"),
    ];
    for (round, (username, password)) in attempts.into_iter().enumerate() {
        host.submit(username, password);
        host.submit(username, "typed twice");
        if round % 2 == 0 {
            host.toggle(false);
        } else {
            host.toggle(true);
        }
        host.submit("someone", "else");
        assert_eq!(host.client.in_flight.len(), 1);
        assert!(host.page.is_processing());
        assert!(host.complete());
        assert!(!host.page.is_processing());
        assert!(host.client.in_flight.is_empty());
    }
    assert_eq!(host.client.started, 5);
    assert_eq!(host.client.most_in_flight, 1);
    assert_eq!(host.outputs, vec![LoginPageOutput::LoggedIn]);
    assert_eq!(
        host.reports,
        vec![
            "Bad credentials".to_string(),
            "Bad credentials".to_string(),
            "Error: An error occurred".to_string(),
            "Bad credentials".to_string(),
        ]
    );
    assert_eq!(host.store.removals, 3);
    assert!(!host.config.save_credentials());
    assert_eq!(host.page.save_credentials(), host.config.save_credentials());
}

#[test]
fn host_failures_leave_the_preference_alone() {
    let mut host = Host::new(true);
    host.submit("alice", "wrong");
    assert!(host.complete());
    host.submit("nobody", "anything");
    assert!(host.complete());
    assert!(host.config.save_credentials());
    assert!(host.page.save_credentials());
    assert_eq!(host.store.removals, 0);
    assert!(host.store.holds_credentials);
    assert!(host.outputs.is_empty());
    assert_eq!(
        host.reports,
        vec!["Bad credentials".to_string(), "Error: An error occurred".to_string()]
    );
}

#[test]
fn host_one_output_for_each_success() {
    let mut host = Host::new(false);
    for _ in 0..3 {
        host.submit("alice", "right");
        host.submit("alice", "right");
        assert!(host.complete());
    }
    host.submit("alice", "wrong");
    assert!(host.complete());
    assert_eq!(host.client.started, 4);
    assert_eq!(
        host.outputs,
        vec![LoginPageOutput::LoggedIn, LoginPageOutput::LoggedIn, LoginPageOutput::LoggedIn]
    );
    assert_eq!(host.reports, vec!["Bad credentials".to_string()]);
}
