//! The handling of one incoming message, as a state machine.
//!
//! The caller owns the transport. It starts with [`begin`], performs each
//! [`Action`] it is given, and hands what came of it back to [`step`] as an
//! [`Event`], until the stage is [`Stage::Finished`].

use crate::cry::{cry_text, Cry};
use crate::lookup::LookupError;
use crate::message::{BotIdentity, IncomingMessage, MessageView, ReplyContent, ReplyView};
use crate::text::{contains, has_substring};
use vstd::prelude::*;
use vstd::string::StringExecFns;

verus! {

/// Where the handling of a message stands.
#[derive(Clone, Copy, Debug, PartialEq, Eq, Structural)]
pub enum Stage {
    /// The bot's identity has been asked for.
    AwaitingIdentity,
    /// An image lookup is under way; the cry goes out with its result.
    AwaitingImage(Cry),
    /// A move lookup is under way.
    AwaitingMove,
    /// A reply has been handed to the transport.
    AwaitingDelivery,
    /// Nothing more will be done for this message.
    Finished,
}

/// What the outside world answered.
#[derive(Clone, Debug, PartialEq, Eq)]
pub enum Event {
    IdentityKnown(BotIdentity),
    IdentityFailed,
    ImageFound(String),
    MoveFound(String),
    LookupFailed(LookupError),
    Delivered,
    DeliveryFailed,
}

/// An event as contracts see it.
pub enum EventView {
    IdentityKnown(BotIdentity),
    IdentityFailed,
    ImageFound(Seq<char>),
    MoveFound(Seq<char>),
    LookupFailed(LookupError),
    Delivered,
    DeliveryFailed,
}

impl View for Event {
    type V = EventView;

    open spec fn view(&self) -> EventView {
        match *self {
            Event::IdentityKnown(bot) => EventView::IdentityKnown(bot),
            Event::IdentityFailed => EventView::IdentityFailed,
            Event::ImageFound(url) => EventView::ImageFound(url@),
            Event::MoveFound(name) => EventView::MoveFound(name@),
            Event::LookupFailed(e) => EventView::LookupFailed(e),
            Event::Delivered => EventView::Delivered,
            Event::DeliveryFailed => EventView::DeliveryFailed,
        }
    }
}

/// What went wrong, for the caller to report. No reply follows a failure.
#[derive(Clone, Copy, Debug, PartialEq, Eq, Structural)]
pub enum Failure {
    Identity,
    Lookup(LookupError),
    Delivery,
}

/// What the caller is to do next.
#[derive(Clone, Debug, PartialEq, Eq)]
pub enum Action {
    FetchIdentity,
    LookupImage,
    LookupMove,
    /// Send `reply` to the channel `channel_id`.
    Send { channel_id: u64, reply: ReplyContent },
    /// Log the failure; nothing is sent.
    Report(Failure),
    /// Nothing to do.
    Idle,
}

/// An action as contracts see it.
pub enum ActionView {
    FetchIdentity,
    LookupImage,
    LookupMove,
    Send { channel_id: u64, reply: ReplyView },
    Report(Failure),
    Idle,
}

impl View for Action {
    type V = ActionView;

    open spec fn view(&self) -> ActionView {
        match *self {
            Action::FetchIdentity => ActionView::FetchIdentity,
            Action::LookupImage => ActionView::LookupImage,
            Action::LookupMove => ActionView::LookupMove,
            Action::Send { channel_id, reply } => ActionView::Send { channel_id, reply: reply@ },
            Action::Report(failure) => ActionView::Report(failure),
            Action::Idle => ActionView::Idle,
        }
    }
}

/// Which of the bot's behaviours a message calls for.
#[derive(Clone, Copy, Debug, PartialEq, Eq, Structural)]
pub enum Route {
    /// The exact ping command, mentioned or not.
    Ping,
    /// Not addressed to the bot.
    Ignore,
    /// A mention asking for a selfie.
    Selfie,
    /// A mention asking for an attack.
    Attack,
    /// Any other mention.
    Cry,
}

/// The route of a message. The ping command comes before everything else;
/// among mentions, a selfie request comes before an attack request.
pub open spec fn route_of(msg: MessageView, bot: BotIdentity) -> Route {
    if msg.text == "!ping"@ {
        Route::Ping
    } else if !msg.mentioned.contains(bot.application_id) {
        Route::Ignore
    } else if has_substring(msg.text, "take a selfie"@) {
        Route::Selfie
    } else if has_substring(msg.text, "attack"@) {
        Route::Attack
    } else {
        Route::Cry
    }
}

/// The text that announces the move `move_name`.
pub open spec fn attack_text(move_name: Seq<char>) -> Seq<char> {
    "Squirtle use "@ + move_name + ". It's super effective."@
}

/// A text-only reply to the channel of `msg`.
pub open spec fn send_text(msg: MessageView, text: Seq<char>) -> ActionView {
    ActionView::Send { channel_id: msg.channel_id, reply: ReplyView { text, image_url: None } }
}

/// What follows once the route of a message is known. `cry` is the cry drawn
/// for a mention; the ping and ignore routes do not read it.
pub open spec fn after_draw(msg: MessageView, route: Route, cry: Cry) -> (Stage, ActionView) {
    match route {
        Route::Selfie => (Stage::AwaitingImage(cry), ActionView::LookupImage),
        Route::Attack => (Stage::AwaitingMove, ActionView::LookupMove),
        Route::Cry => (Stage::AwaitingDelivery, send_text(msg, cry_text(cry))),
        Route::Ping => (Stage::AwaitingDelivery, send_text(msg, "Pong!"@)),
        Route::Ignore => (Stage::Finished, ActionView::Idle),
    }
}

/// The machine: next stage and action for each stage and event. `cry` is the
/// cry drawn in this step; only a mention in `AwaitingIdentity` reads it. An
/// event that does not answer what the stage waits for changes nothing.
pub open spec fn next(stage: Stage, msg: MessageView, event: EventView, cry: Cry) -> (
    Stage,
    ActionView,
) {
    match (stage, event) {
        (Stage::AwaitingIdentity, EventView::IdentityKnown(bot)) => after_draw(
            msg,
            route_of(msg, bot),
            cry,
        ),
        (Stage::AwaitingIdentity, EventView::IdentityFailed) => (
            Stage::Finished,
            ActionView::Report(Failure::Identity),
        ),
        (Stage::AwaitingImage(kept), EventView::ImageFound(url)) => (
            Stage::AwaitingDelivery,
            ActionView::Send {
                channel_id: msg.channel_id,
                reply: ReplyView { text: cry_text(kept), image_url: Some(url) },
            },
        ),
        (Stage::AwaitingImage(_), EventView::LookupFailed(e)) => (
            Stage::Finished,
            ActionView::Report(Failure::Lookup(e)),
        ),
        (Stage::AwaitingMove, EventView::MoveFound(name)) => (
            Stage::AwaitingDelivery,
            send_text(msg, attack_text(name)),
        ),
        (Stage::AwaitingMove, EventView::LookupFailed(e)) => (
            Stage::Finished,
            ActionView::Report(Failure::Lookup(e)),
        ),
        (Stage::AwaitingDelivery, EventView::Delivered) => (Stage::Finished, ActionView::Idle),
        (Stage::AwaitingDelivery, EventView::DeliveryFailed) => (
            Stage::Finished,
            ActionView::Report(Failure::Delivery),
        ),
        _ => (stage, ActionView::Idle),
    }
}

/// Whether a step in `stage` on `event` draws a cry.
pub open spec fn draws_cry(stage: Stage, msg: MessageView, event: EventView) -> bool {
    &&& stage == Stage::AwaitingIdentity
    &&& event matches EventView::IdentityKnown(bot)
    &&& route_of(msg, bot) != Route::Ping
    &&& route_of(msg, bot) != Route::Ignore
}

/// Decides which behaviour `msg` calls for, given who the bot is.
pub fn route(msg: &IncomingMessage, bot: BotIdentity) -> (chosen: Route)
    ensures
        chosen == route_of(msg@, bot),
{
    let ping = String::from_str("!ping");
    if msg.text == ping {
        Route::Ping
    } else if !msg.mentions(bot.application_id) {
        Route::Ignore
    } else if contains(msg.text.as_str(), "take a selfie") {
        Route::Selfie
    } else if contains(msg.text.as_str(), "attack") {
        Route::Attack
    } else {
        Route::Cry
    }
}

/// The reply text that announces the move `move_name`.
pub fn attack_reply_text(move_name: &str) -> (text: String)
    ensures
        text@ == attack_text(move_name@),
{
    let mut text = String::from_str("Squirtle use ");
    text.append(move_name);
    text.append(". It's super effective.");
    text
}

/// Opens the handling of a message: the bot's identity is asked for first,
/// whatever the message says.
pub fn begin() -> (opened: (Stage, Action))
    ensures
        opened.0 == Stage::AwaitingIdentity,
        opened.1@ == ActionView::FetchIdentity,
{
    (Stage::AwaitingIdentity, Action::FetchIdentity)
}

/// What follows once the route of `msg` is known, with `cry` as the cry
/// drawn for it.
pub fn settle(msg: &IncomingMessage, chosen: Route, cry: Cry) -> (out: (Stage, Action))
    ensures
        (out.0, out.1@) == after_draw(msg@, chosen, cry),
{
    match chosen {
        Route::Selfie => (Stage::AwaitingImage(cry), Action::LookupImage),
        Route::Attack => (Stage::AwaitingMove, Action::LookupMove),
        Route::Cry => (
            Stage::AwaitingDelivery,
            Action::Send { channel_id: msg.channel_id, reply: ReplyContent::plain(cry.text()) },
        ),
        Route::Ping => (
            Stage::AwaitingDelivery,
            Action::Send { channel_id: msg.channel_id, reply: ReplyContent::plain("Pong!") },
        ),
        Route::Ignore => (Stage::Finished, Action::Idle),
    }
}

/// One step of the machine with the cry given rather than drawn.
pub fn step_with(stage: Stage, msg: &IncomingMessage, event: Event, cry: Cry) -> (out: (
    Stage,
    Action,
))
    ensures
        (out.0, out.1@) == next(stage, msg@, event@, cry),
{
    match (stage, event) {
        (Stage::AwaitingIdentity, Event::IdentityKnown(bot)) => settle(msg, route(msg, bot), cry),
        (Stage::AwaitingIdentity, Event::IdentityFailed) => (
            Stage::Finished,
            Action::Report(Failure::Identity),
        ),
        (Stage::AwaitingImage(kept), Event::ImageFound(url)) => (
            Stage::AwaitingDelivery,
            Action::Send {
                channel_id: msg.channel_id,
                reply: ReplyContent::with_image(kept.text(), url.as_str()),
            },
        ),
        (Stage::AwaitingImage(_), Event::LookupFailed(e)) => (
            Stage::Finished,
            Action::Report(Failure::Lookup(e)),
        ),
        (Stage::AwaitingMove, Event::MoveFound(name)) => (
            Stage::AwaitingDelivery,
            Action::Send {
                channel_id: msg.channel_id,
                reply: ReplyContent { text: attack_reply_text(name.as_str()), image_url: None },
            },
        ),
        (Stage::AwaitingMove, Event::LookupFailed(e)) => (
            Stage::Finished,
            Action::Report(Failure::Lookup(e)),
        ),
        (Stage::AwaitingDelivery, Event::Delivered) => (Stage::Finished, Action::Idle),
        (Stage::AwaitingDelivery, Event::DeliveryFailed) => (
            Stage::Finished,
            Action::Report(Failure::Delivery),
        ),
        (stage, _) => (stage, Action::Idle),
    }
}

/// One step of the machine. A mention that is not the ping command has its
/// cry drawn at random here, anew for each message; every other step is
/// fixed by the stage, the message and the event alone.
pub fn step(stage: Stage, msg: &IncomingMessage, event: Event) -> (out: (Stage, Action))
    ensures
        exists|cry: Cry| (out.0, out.1@) == next(stage, msg@, event@, cry),
        !draws_cry(stage, msg@, event@) ==> forall|cry: Cry|
            (out.0, out.1@) == next(stage, msg@, event@, cry),
{
    match (stage, event) {
        (Stage::AwaitingIdentity, Event::IdentityKnown(bot)) => {
            let chosen = route(msg, bot);
            let cry = match chosen {
                // These two routes read no cry, so none is drawn.
                Route::Ping | Route::Ignore => Cry::Plain,
                _ => Cry::pick(),
            };
            let out = settle(msg, chosen, cry);
            assert((out.0, out.1@) == next(stage, msg@, event@, cry));
            out
        },
        (stage, event) => {
            let out = step_with(stage, msg, event, Cry::Plain);
            assert((out.0, out.1@) == next(stage, msg@, event@, Cry::Plain));
            out
        },
    }
}

} // verus!
