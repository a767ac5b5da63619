//! The sample plugin: what it tells the host of itself, what its start-up
//! hook does, and the decisions of its custom action.
//!
//! The custom action cannot reach the host, so it is a machine: it is handed
//! the stage it is in and what the host answered last, and gives the next
//! stage and what to do next. Whoever drives it performs each action and
//! comes back with the answer, until the action is to return.

use vstd::prelude::*;
use vstd::string::*;
use crate::application::{MessageBoxType, XanteApp};
use crate::arguments::{ITEM, XPP};
use crate::host::{HostCall, HostCallView};
use crate::item::XanteItem;
use crate::logger::{entry, info, Level, CALLER};
use crate::text::{
    from_host, host_string, is_host_text, is_text, lemma_representable_chars,
    lemma_representable_concat, lemma_text_keeps_host_string, representable, text_of,
};

verus! {

/// The plugin's name.
pub const NAME: &'static str = "Rust Plugin";

/// The plugin's version.
pub const VERSION: &'static str = "0.1";

/// The plugin's author.
pub const AUTHOR: &'static str = "Rodrigo Freitas";

/// What the plugin is.
pub const DESCRIPTION: &'static str = "Rust plugin example for libxante";

/// The status of a hook that did its work.
pub const SUCCESS: i32 = 0;

/// The status of the custom action where no application context was passed.
pub const APP_UNAVAILABLE: i32 = -1;

/// The status of the custom action where no item was passed.
pub const ITEM_UNAVAILABLE: i32 = -2;

/// What the start-up hook logs.
pub const GREETING: &'static str = "Hello from rust xapl_init";

/// The title of the custom action's message box.
pub const TITLE: &'static str = "Rust - foo_custom";

/// What stands before the item's name in the custom action's message.
pub const PREFIX: &'static str = "Custom event name: ";

/// The start-up hook: the log call to make and the status to return.
pub fn xapl_init() -> (done: (HostCall, i32))
    ensures
        done.0@ == entry(Level::Info, CALLER@, GREETING@),
        done.0@.well_formed(),
        done.1 == SUCCESS,
{
    proof {
        reveal_strlit("Hello from rust xapl_init");
        lemma_representable_chars(GREETING@);
    }
    (info(GREETING), SUCCESS)
}

/// Where the custom action stands.
#[derive(Debug, PartialEq, Eq)]
pub enum Stage {
    /// Not begun.
    Start,
    /// The item was asked for.
    Item,
    /// The application context was asked for.
    App { item: XanteItem },
    /// The item's name was asked for.
    Name { item: XanteItem, app: XanteApp },
    /// The message box is up.
    Shown,
    /// The status was given.
    Done,
}

/// A stage over addresses.
pub enum StageView {
    Start,
    Item,
    App { item: usize },
    Name { item: usize, app: usize },
    Shown,
    Done,
}

impl View for Stage {
    type V = StageView;

    open spec fn view(&self) -> StageView {
        match *self {
            Stage::Start => StageView::Start,
            Stage::Item => StageView::Item,
            Stage::App { item } => StageView::App { item: item@ },
            Stage::Name { item, app } => StageView::Name { item: item@, app: app@ },
            Stage::Shown => StageView::Shown,
            Stage::Done => StageView::Done,
        }
    }
}

/// What the host answered.
#[derive(Debug, PartialEq, Eq)]
pub enum Event {
    /// The host called the action.
    Called,
    /// A lookup in the bundle gave an address or an error code.
    Found(Result<usize, i32>),
    /// A query gave a host string.
    Text(Vec<u8>),
    /// A call returned a status.
    Returned(i32),
}

/// An event over sequences of bytes.
pub enum EventView {
    Called,
    Found(Result<usize, i32>),
    Text(Seq<u8>),
    Returned(i32),
}

impl View for Event {
    type V = EventView;

    open spec fn view(&self) -> EventView {
        match *self {
            Event::Called => EventView::Called,
            Event::Found(found) => EventView::Found(found),
            Event::Text(bytes) => EventView::Text(bytes@),
            Event::Returned(status) => EventView::Returned(status),
        }
    }
}

/// What to do next.
#[derive(Debug, PartialEq, Eq)]
pub enum Action {
    /// Look `key` up in the bundle.
    Retrieve { key: &'static str },
    /// Ask the host for the name of the item at `item`.
    ItemName { item: usize },
    /// Make the call.
    Call(HostCall),
    /// Return `status` to the host.
    Return { status: i32 },
}

/// An action over sequences.
pub enum ActionView {
    Retrieve { key: Seq<char> },
    ItemName { item: usize },
    Call(HostCallView),
    Return { status: i32 },
}

impl View for Action {
    type V = ActionView;

    open spec fn view(&self) -> ActionView {
        match *self {
            Action::Retrieve { key } => ActionView::Retrieve { key: key@ },
            Action::ItemName { item } => ActionView::ItemName { item },
            Action::Call(call) => ActionView::Call(call@),
            Action::Return { status } => ActionView::Return { status },
        }
    }
}

/// The message box that the custom action shows for the item whose name the
/// host string `name` holds.
pub open spec fn greeting_box(app: usize, name: Seq<u8>) -> HostCallView {
    HostCallView::MessageBox {
        xpp: app,
        msg_type: MessageBoxType::Info.spec_tag(),
        title: host_string(TITLE@),
        message: host_string(PREFIX@ + text_of(name)),
    }
}

/// The custom action's step: the next stage and what to do, for a stage and
/// the answer it waited for; nothing for an answer it did not wait for.
///
/// The item is asked for first and its absence ends the action; then the
/// application context, likewise; then the item's name, which goes into the
/// message box; and when the box has returned, whatever it returned, the
/// action has succeeded.
pub open spec fn next(stage: StageView, event: EventView) -> Option<(StageView, ActionView)> {
    match (stage, event) {
        (StageView::Start, EventView::Called) => Some(
            (StageView::Item, ActionView::Retrieve { key: ITEM@ }),
        ),
        (StageView::Item, EventView::Found(Ok(item))) => Some(
            (StageView::App { item }, ActionView::Retrieve { key: XPP@ }),
        ),
        (StageView::Item, EventView::Found(Err(_))) => Some(
            (StageView::Done, ActionView::Return { status: ITEM_UNAVAILABLE }),
        ),
        (StageView::App { item }, EventView::Found(Ok(app))) => Some(
            (StageView::Name { item, app }, ActionView::ItemName { item }),
        ),
        (StageView::App { .. }, EventView::Found(Err(_))) => Some(
            (StageView::Done, ActionView::Return { status: APP_UNAVAILABLE }),
        ),
        (StageView::Name { app, .. }, EventView::Text(name)) => if is_host_text(name) {
            Some((StageView::Shown, ActionView::Call(greeting_box(app, name))))
        } else {
            None
        },
        (StageView::Shown, EventView::Returned(_)) => Some(
            (StageView::Done, ActionView::Return { status: SUCCESS }),
        ),
        _ => None,
    }
}

/// The custom action, one step of it.
pub fn foo_custom(stage: Stage, event: Event) -> (step: Option<(Stage, Action)>)
    ensures
        step is Some <==> next(stage@, event@) is Some,
        step matches Some((then, action)) ==> next(stage@, event@) == Some((then@, action@)),
        step matches Some((_, Action::Call(call))) ==> call@.well_formed(),
{
    match (stage, event) {
        (Stage::Start, Event::Called) => Some((Stage::Item, Action::Retrieve { key: ITEM })),
        (Stage::Item, Event::Found(found)) => match XanteItem::new(found) {
            Ok(item) => Some((Stage::App { item }, Action::Retrieve { key: XPP })),
            Err(_) => Some((Stage::Done, Action::Return { status: ITEM_UNAVAILABLE })),
        },
        (Stage::App { item }, Event::Found(found)) => match XanteApp::new(found) {
            Ok(app) => {
                let address = item.address();
                Some((Stage::Name { item, app }, Action::ItemName { item: address }))
            },
            Err(_) => Some((Stage::Done, Action::Return { status: APP_UNAVAILABLE })),
        },
        (Stage::Name { item, app }, Event::Text(reply)) => {
            if !is_text(reply.as_slice()) {
                return None;
            }
            let name = item.name(reply.as_slice());
            let mut message = String::from_str(PREFIX);
            message.append(name);
            proof {
                reveal_strlit("Rust - foo_custom");
                reveal_strlit("Custom event name: ");
                lemma_representable_chars(TITLE@);
                lemma_representable_chars(PREFIX@);
                lemma_text_keeps_host_string(reply@);
                lemma_representable_concat(PREFIX@, name@);
            }
            let call = app.message_box(MessageBoxType::Info, TITLE, message.as_str());
            Some((Stage::Shown, Action::Call(call)))
        },
        (Stage::Shown, Event::Returned(_)) => Some(
            (Stage::Done, Action::Return { status: SUCCESS }),
        ),
        _ => None,
    }
}

/// The status that the custom action owes the host, for what the two
/// lookups gave.
pub open spec fn status(item: Result<usize, i32>, app: Result<usize, i32>) -> i32 {
    if item is Err {
        ITEM_UNAVAILABLE
    } else if app is Err {
        APP_UNAVAILABLE
    } else {
        SUCCESS
    }
}

/// `host` answers each action with an event of the kind that the action
/// asks for: the lookups of the item and of the application context with
/// `item` and `app`, a query for a name with a host text, and a call with
/// a status.
pub open spec fn answers(
    host: spec_fn(ActionView) -> EventView,
    item: Result<usize, i32>,
    app: Result<usize, i32>,
) -> bool {
    &&& host(ActionView::Retrieve { key: ITEM@ }) == EventView::Found(item)
    &&& host(ActionView::Retrieve { key: XPP@ }) == EventView::Found(app)
    &&& forall|address: usize| #[trigger]
        host(ActionView::ItemName { item: address }) is Text && is_host_text(
            host(ActionView::ItemName { item: address })->Text_0,
        )
    &&& forall|call: HostCallView| #[trigger] host(ActionView::Call(call)) is Returned
}

/// The status with which the custom action ends when it is driven from
/// `stage` and `event` against `host`, if it ends within `steps` answers of
/// the host.
pub open spec fn run(
    stage: StageView,
    event: EventView,
    host: spec_fn(ActionView) -> EventView,
    steps: nat,
) -> Option<i32>
    decreases steps,
{
    match next(stage, event) {
        None => None,
        Some((_, ActionView::Return { status })) => Some(status),
        Some((then, action)) => if steps == 0 {
            None
        } else {
            run(then, host(action), host, (steps - 1) as nat)
        },
    }
}

/// Driven from its start against a host that answers in kind, the custom
/// action ends within four answers, with the status that the two lookups
/// call for: that of the missing item where the item is missing, else that
/// of the missing application context where that is missing, else success.
pub proof fn lemma_run_status(
    host: spec_fn(ActionView) -> EventView,
    item: Result<usize, i32>,
    app: Result<usize, i32>,
)
    requires
        answers(host, item, app),
    ensures
        run(StageView::Start, EventView::Called, host, 4) == Some(status(item, app)),
{
    reveal_with_fuel(run, 5);
    if item is Ok && app is Ok {
        let name = ActionView::ItemName { item: item->Ok_0 };
        assert(host(name) is Text);
        let call = ActionView::Call(greeting_box(app->Ok_0, host(name)->Text_0));
        assert(host(call) is Returned);
    }
}

} // verus!
