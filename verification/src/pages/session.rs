//! What holds of a login page over its whole life.
//!
//! A session is a page together with the settings that it writes to. Events
//! reach it one at a time, in the order of their arrival: inputs of the user,
//! handled as [`LoginPage::update`](crate::pages::login::LoginPage::update)
//! ensures, and completions of exchanges, handled as
//! [`LoginPage::update_cmd`](crate::pages::login::LoginPage::update_cmd)
//! ensures. The laws below are stated of every session and every run of events.
use crate::pages::login::{
    LoginPageActionView, LoginPageInputView, LoginPageMessageView, LoginPageOutput,
    LoginPageReportView, LoginPageView,
};
use crate::utils::config::ConfigView;
use vstd::prelude::*;

verus! {

/// An event that reaches the page.
pub enum LoginPageEvent {
    /// The user asks for something.
    Input(LoginPageInputView),
    /// An authentication exchange has come to its end.
    Message(LoginPageMessageView),
}

impl LoginPageEvent {
    /// Whether the event is a submit.
    pub open spec fn is_submit(self) -> bool {
        self matches LoginPageEvent::Input(LoginPageInputView::Submit { .. })
    }

    /// Whether the event is a toggle of the save preference.
    pub open spec fn is_toggle(self) -> bool {
        self matches LoginPageEvent::Input(LoginPageInputView::ToggleSavePassword { .. })
    }

    /// Whether the event is the completion of an exchange that succeeded.
    pub open spec fn is_success(self) -> bool {
        self == LoginPageEvent::Message(LoginPageMessageView::LoggedIn)
    }
}

/// Whether an action starts an authentication exchange.
pub open spec fn starts_exchange(action: Option<LoginPageActionView>) -> bool {
    action matches Some(LoginPageActionView::Login { .. })
}

/// Whether an action hands an output to the caller.
pub open spec fn emits_output(action: Option<LoginPageActionView>) -> bool {
    action matches Some(LoginPageActionView::Output(_))
}

/// The number of completions among the events.
pub open spec fn exchanges_completed(events: Seq<LoginPageEvent>) -> nat
    decreases events.len(),
{
    if events.len() == 0 {
        0
    } else {
        exchanges_completed(events.drop_last()) + if events.last() is Message {
            1nat
        } else {
            0nat
        }
    }
}

/// The number of completions of exchanges that succeeded among the events.
pub open spec fn successes(events: Seq<LoginPageEvent>) -> nat
    decreases events.len(),
{
    if events.len() == 0 {
        0
    } else {
        successes(events.drop_last()) + if events.last().is_success() {
            1nat
        } else {
            0nat
        }
    }
}

/// A page and the settings that it writes to.
pub struct Session {
    pub page: LoginPageView,
    pub config: ConfigView,
}

impl Session {
    /// The session of a page that has just been set up.
    pub open spec fn init(config: ConfigView) -> Session {
        Session { page: LoginPageView::init(config), config }
    }

    /// The session after one event, and the action that the event results in.
    pub open spec fn handle(self, event: LoginPageEvent) -> (Session, Option<LoginPageActionView>) {
        match event {
            LoginPageEvent::Input(msg) => {
                let step = self.page.update(self.config, msg);
                (Session { page: step.page, config: step.config }, step.action)
            },
            LoginPageEvent::Message(message) => {
                let (page, action) = self.page.update_cmd(message);
                (Session { page, config: self.config }, Some(action))
            },
        }
    }

    /// The session after a submit, and the action that the submit results in.
    pub open spec fn submit(self, username: Seq<char>, password: Seq<char>) -> (
        Session,
        Option<LoginPageActionView>,
    ) {
        self.handle(LoginPageEvent::Input(LoginPageInputView::Submit { username, password }))
    }

    /// The session after a toggle of the save preference, and the action that
    /// the toggle results in.
    pub open spec fn toggle(self, active: bool) -> (Session, Option<LoginPageActionView>) {
        self.handle(LoginPageEvent::Input(LoginPageInputView::ToggleSavePassword { active }))
    }

    /// The session after a completion, and the action that the completion
    /// results in.
    pub open spec fn complete(self, message: LoginPageMessageView) -> (
        Session,
        Option<LoginPageActionView>,
    ) {
        self.handle(LoginPageEvent::Message(message))
    }

    /// The session after the events, handled first to last.
    pub open spec fn after(self, events: Seq<LoginPageEvent>) -> Session
        decreases events.len(),
    {
        if events.len() == 0 {
            self
        } else {
            self.after(events.drop_last()).handle(events.last()).0
        }
    }

    /// The actions that the events result in, one entry for each event.
    pub open spec fn actions(self, events: Seq<LoginPageEvent>) -> Seq<Option<LoginPageActionView>>
        decreases events.len(),
    {
        if events.len() == 0 {
            Seq::empty()
        } else {
            self.actions(events.drop_last()).push(
                self.after(events.drop_last()).handle(events.last()).1,
            )
        }
    }

    /// The number of authentication exchanges that the events start.
    pub open spec fn exchanges_started(self, events: Seq<LoginPageEvent>) -> nat
        decreases events.len(),
    {
        if events.len() == 0 {
            0
        } else {
            self.exchanges_started(events.drop_last()) + if starts_exchange(
                self.after(events.drop_last()).handle(events.last()).1,
            ) {
                1nat
            } else {
                0nat
            }
        }
    }

    /// The number of outputs that the events have handed to the caller.
    pub open spec fn outputs(self, events: Seq<LoginPageEvent>) -> nat
        decreases events.len(),
    {
        if events.len() == 0 {
            0
        } else {
            self.outputs(events.drop_last()) + if emits_output(
                self.after(events.drop_last()).handle(events.last()).1,
            ) {
                1nat
            } else {
                0nat
            }
        }
    }

    /// The number of exchanges that were started and have not completed.
    pub open spec fn exchanges_in_flight(self, events: Seq<LoginPageEvent>) -> int {
        self.exchanges_started(events) - exchanges_completed(events)
    }

    /// Whether every completion among the events answers an exchange: when it
    /// arrives, an exchange is in flight. This is what the host owes the page:
    /// it delivers one completion for each exchange that it was asked to
    /// start, after the submit that started it, and none else.
    pub open spec fn completions_answer_exchanges(self, events: Seq<LoginPageEvent>) -> bool
        decreases events.len(),
    {
        events.len() > 0 ==> {
            &&& self.completions_answer_exchanges(events.drop_last())
            &&& events.last() is Message ==> self.exchanges_in_flight(events.drop_last()) > 0
        }
    }
}

/// While the page is processing, submits are dropped, however many arrive and
/// whatever they hold: none of them starts an exchange or results in any other
/// action, and the session is afterwards as it was before.
pub proof fn lemma_submits_while_processing_are_dropped(
    session: Session,
    submits: Seq<LoginPageEvent>,
)
    requires
        session.page.is_processing,
        forall|i: int| 0 <= i < submits.len() ==> (#[trigger] submits[i]).is_submit(),
    ensures
        session.after(submits) == session,
        session.actions(submits) == Seq::new(submits.len(), |i: int| None::<LoginPageActionView>),
        session.exchanges_started(submits) == 0,
    decreases submits.len(),
{
    if submits.len() > 0 {
        let earlier = submits.drop_last();
        lemma_submits_while_processing_are_dropped(session, earlier);
        assert(submits.last().is_submit());
    }
}

/// Of the submits that reach an idle page in a row, the first starts an
/// exchange, with the credentials that it holds, and no later one starts a
/// second: each of those results in no action at all.
pub proof fn lemma_first_submit_starts_the_only_exchange(
    session: Session,
    submits: Seq<LoginPageEvent>,
)
    requires
        !session.page.is_processing,
        submits.len() > 0,
        forall|i: int| 0 <= i < submits.len() ==> (#[trigger] submits[i]).is_submit(),
    ensures
        submits[0] matches LoginPageEvent::Input(LoginPageInputView::Submit { username, password })
            && session.handle(submits[0]).1 == Some(
            LoginPageActionView::Login { username, password },
        ),
        session.actions(submits) == Seq::new(
            submits.len(),
            |i: int|
                if i == 0 {
                    session.handle(submits[0]).1
                } else {
                    None
                },
        ),
        session.exchanges_started(submits) == 1,
        session.after(submits) == session.handle(submits[0]).0,
        session.after(submits).page.is_processing,
    decreases submits.len(),
{
    let earlier = submits.drop_last();
    assert(submits[0].is_submit());
    assert(submits.last().is_submit());
    if earlier.len() == 0 {
        // The first submit stands alone: nothing was handled before it.
        assert(session.after(earlier) == session);
        assert(session.actions(earlier) == Seq::<Option<LoginPageActionView>>::empty());
        assert(session.exchanges_started(earlier) == 0);
    } else {
        lemma_first_submit_starts_the_only_exchange(session, earlier);
        assert(earlier[0] == submits[0]);
    }
}

/// At most one authentication exchange is in flight. More exactly: in a
/// session that begins idle and in which every completion answers an exchange,
/// the number of exchanges in flight is one while the page is processing and
/// none while it is idle.
pub proof fn lemma_at_most_one_exchange_in_flight(session: Session, events: Seq<LoginPageEvent>)
    requires
        !session.page.is_processing,
        session.completions_answer_exchanges(events),
    ensures
        session.exchanges_in_flight(events) == if session.after(events).page.is_processing {
            1int
        } else {
            0int
        },
        0 <= session.exchanges_in_flight(events) <= 1,
    decreases events.len(),
{
    if events.len() > 0 {
        lemma_at_most_one_exchange_in_flight(session, events.drop_last());
    }
}

/// A completion cannot be taken for the answer to another exchange: in a
/// session that begins idle and in which every completion answers an exchange,
/// exactly one exchange is in flight when a completion arrives, and none once
/// it has been handled.
pub proof fn lemma_completion_answers_the_exchange_in_flight(
    session: Session,
    events: Seq<LoginPageEvent>,
)
    requires
        !session.page.is_processing,
        session.completions_answer_exchanges(events),
        events.len() > 0,
        events.last() is Message,
    ensures
        session.exchanges_in_flight(events.drop_last()) == 1,
        session.after(events.drop_last()).page.is_processing,
        session.exchanges_in_flight(events) == 0,
{
    lemma_at_most_one_exchange_in_flight(session, events.drop_last());
    lemma_at_most_one_exchange_in_flight(session, events);
}

/// Once the save preference has been toggled, the settings read back the value
/// that was set, at once and for as long as no other toggle arrives; the
/// page shows the same value. Nothing here waits for the credentials to be
/// forgotten: that is only asked for, in the action of a toggle that switches
/// the preference off.
pub proof fn lemma_toggle_is_read_back(
    session: Session,
    active: bool,
    events: Seq<LoginPageEvent>,
)
    requires
        forall|i: int| 0 <= i < events.len() ==> !(#[trigger] events[i]).is_toggle(),
    ensures
        session.toggle(active).0.config.save_credentials == active,
        session.toggle(active).0.after(events).config.save_credentials == active,
        session.toggle(active).0.after(events).page.save_credentials == active,
        session.toggle(active).1 == if active {
            None
        } else {
            Some(LoginPageActionView::RemoveAuth)
        },
    decreases events.len(),
{
    if events.len() > 0 {
        lemma_toggle_is_read_back(session, active, events.drop_last());
        assert(!events.last().is_toggle());
    }
}

/// The page and the settings agree on the save preference: they do when the
/// page is set up, and no event parts them.
pub proof fn lemma_page_shows_the_stored_preference(
    config: ConfigView,
    events: Seq<LoginPageEvent>,
)
    ensures
        Session::init(config).after(events).page.save_credentials == Session::init(config).after(
            events,
        ).config.save_credentials,
    decreases events.len(),
{
    if events.len() > 0 {
        lemma_page_shows_the_stored_preference(config, events.drop_last());
    }
}

/// A completion that reports success leaves the page idle and hands `LoggedIn`
/// to the caller, once. No other event hands out anything, so over any run of
/// events the caller gets one output for each such completion and no more.
pub proof fn lemma_success_emits_logged_in_once(session: Session, events: Seq<LoginPageEvent>)
    ensures
        !session.complete(LoginPageMessageView::LoggedIn).0.page.is_processing,
        session.complete(LoginPageMessageView::LoggedIn).1 == Some(
            LoginPageActionView::Output(LoginPageOutput::LoggedIn),
        ),
        session.outputs(events) == successes(events),
    decreases events.len(),
{
    if events.len() > 0 {
        lemma_success_emits_logged_in_once(session, events.drop_last());
        lemma_output_only_on_success(session.after(events.drop_last()), events.last());
    }
}

/// The caller never gets more outputs than exchanges were started: in a
/// session that begins idle and in which every completion answers an exchange,
/// each output stands for a completion of its own, and each completion for an
/// exchange of its own. So no submit is answered by two outputs.
pub proof fn lemma_no_more_outputs_than_exchanges(session: Session, events: Seq<LoginPageEvent>)
    requires
        !session.page.is_processing,
        session.completions_answer_exchanges(events),
    ensures
        session.outputs(events) <= exchanges_completed(events) <= session.exchanges_started(events),
{
    lemma_success_emits_logged_in_once(session, events);
    lemma_successes_are_completions(events);
    lemma_at_most_one_exchange_in_flight(session, events);
}

/// Every success is a completion.
proof fn lemma_successes_are_completions(events: Seq<LoginPageEvent>)
    ensures
        successes(events) <= exchanges_completed(events),
    decreases events.len(),
{
    if events.len() > 0 {
        lemma_successes_are_completions(events.drop_last());
    }
}

/// An event hands an output to the caller exactly if it is the completion of
/// an exchange that succeeded.
pub proof fn lemma_output_only_on_success(session: Session, event: LoginPageEvent)
    ensures
        emits_output(session.handle(event).1) <==> event.is_success(),
{
}

/// A completion that reports refused credentials leaves the page idle and
/// the save preference untouched, on the page and in the settings, and hands
/// nothing to the caller: the user is told of the bad credentials.
pub proof fn lemma_unauthorized_keeps_the_preference(session: Session)
    ensures
        !session.complete(LoginPageMessageView::Unauthorized).0.page.is_processing,
        session.complete(LoginPageMessageView::Unauthorized).0.config == session.config,
        session.complete(LoginPageMessageView::Unauthorized).0.page.save_credentials
            == session.page.save_credentials,
        session.complete(LoginPageMessageView::Unauthorized).1 == Some(
            LoginPageActionView::Report(LoginPageReportView::BadCredentials),
        ),
        !emits_output(session.complete(LoginPageMessageView::Unauthorized).1),
{
}

/// No completion touches the save preference, and every failure is reported:
/// whatever the message, the page is idle afterwards, the settings are as they
/// were and the page shows the preference that it showed; and unless the
/// message is `LoggedIn`, the action is the report of that failure.
pub proof fn lemma_completion_keeps_the_preference(session: Session, message: LoginPageMessageView)
    ensures
        !session.complete(message).0.page.is_processing,
        session.complete(message).0.config == session.config,
        session.complete(message).0.page.save_credentials == session.page.save_credentials,
        session.complete(message).1 == Some(message.action()),
        message !is LoggedIn ==> message.action() is Report,
{
}

/// Only a completion clears the processing flag: no input of the user ends
/// the processing of a page.
pub proof fn lemma_inputs_keep_processing(session: Session, msg: LoginPageInputView)
    requires
        session.page.is_processing,
    ensures
        session.handle(LoginPageEvent::Input(msg)).0.page.is_processing,
{
}

/// A completion that arrives while the page is idle leaves the session as it
/// was: handling a completion twice is handling it once.
pub proof fn lemma_completion_while_idle_changes_nothing(
    session: Session,
    first: LoginPageMessageView,
    second: LoginPageMessageView,
)
    ensures
        !session.page.is_processing ==> session.complete(first).0 == session,
        session.complete(first).0.complete(second).0 == session.complete(first).0,
{
}

/// After a completion, whatever it reports, the page accepts the next submit
/// and starts an exchange with its credentials: no failure is final.
pub proof fn lemma_submit_after_completion_is_accepted(
    session: Session,
    message: LoginPageMessageView,
    username: Seq<char>,
    password: Seq<char>,
)
    ensures
        session.complete(message).0.submit(username, password).1 == Some(
            LoginPageActionView::Login { username, password },
        ),
        session.complete(message).0.submit(username, password).0.page.is_processing,
{
}

} // verus!
