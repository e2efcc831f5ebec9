//! What holds of the router for every message, stated over its model.

use crate::cry::{cry_text, Cry};
use crate::message::{BotIdentity, MessageView, ReplyView};
use crate::router::{next, route_of, send_text, ActionView, EventView, Failure, Route, Stage};
use crate::text::{has_substring, occurs_at};
use vstd::prelude::*;

verus! {

/// Whether `text` is one of the three cries.
pub open spec fn is_cry(text: Seq<char>) -> bool {
    ||| text == "Squirtle!"@
    ||| text == "Squirtle squirtle squirtle"@
    ||| text == "SQUIRTLE SQUIRTLE!"@
}

/// An action without what chance selects: the kind it is, where a reply
/// goes and whether it carries an image, but no text and no address.
pub enum ActionShape {
    FetchIdentity,
    LookupImage,
    LookupMove,
    Send { channel_id: u64, has_image: bool },
    Report(Failure),
    Idle,
}

/// The shape of an action.
pub open spec fn shape_of(action: ActionView) -> ActionShape {
    match action {
        ActionView::FetchIdentity => ActionShape::FetchIdentity,
        ActionView::LookupImage => ActionShape::LookupImage,
        ActionView::LookupMove => ActionShape::LookupMove,
        ActionView::Send { channel_id, reply } => ActionShape::Send {
            channel_id,
            has_image: reply.image_url is Some,
        },
        ActionView::Report(failure) => ActionShape::Report(failure),
        ActionView::Idle => ActionShape::Idle,
    }
}

/// Two stages that differ at most in the cry they keep.
pub open spec fn alike_stages(a: Stage, b: Stage) -> bool {
    match (a, b) {
        (Stage::AwaitingImage(_), Stage::AwaitingImage(_)) => true,
        _ => a == b,
    }
}

/// Two events that differ at most in the address or the name that a lookup
/// selected.
pub open spec fn alike_events(a: EventView, b: EventView) -> bool {
    match (a, b) {
        (EventView::ImageFound(_), EventView::ImageFound(_)) => true,
        (EventView::MoveFound(_), EventView::MoveFound(_)) => true,
        _ => a == b,
    }
}

/// A string that holds another is at least as long.
pub proof fn substring_is_no_longer(hay: Seq<char>, needle: Seq<char>)
    requires
        has_substring(hay, needle),
    ensures
        needle.len() <= hay.len(),
{
    let at = choose|at: int| occurs_at(hay, needle, at);
    assert(occurs_at(hay, needle, at));
}

/// Every cry has one of the three fixed texts.
pub proof fn every_cry_is_one_of_three(cry: Cry)
    ensures
        is_cry(cry_text(cry)),
{
}

/// A message whose text is exactly the ping command is answered with
/// "Pong!" in its own channel, whether or not it mentions the bot.
pub proof fn ping_is_answered_with_pong(msg: MessageView, bot: BotIdentity, cry: Cry)
    requires
        msg.text == "!ping"@,
    ensures
        next(Stage::AwaitingIdentity, msg, EventView::IdentityKnown(bot), cry) == (
            Stage::AwaitingDelivery,
            send_text(msg, "Pong!"@),
        ),
{
}

/// A message that neither mentions the bot nor is the ping command ends the
/// handling at once: nothing is sent then, and nothing after.
pub proof fn unaddressed_message_gets_no_reply(
    msg: MessageView,
    bot: BotIdentity,
    cry: Cry,
    later: EventView,
)
    requires
        !msg.mentioned.contains(bot.application_id),
        msg.text != "!ping"@,
    ensures
        next(Stage::AwaitingIdentity, msg, EventView::IdentityKnown(bot), cry) == (
            Stage::Finished,
            ActionView::Idle,
        ),
        next(Stage::Finished, msg, later, cry) == (Stage::Finished, ActionView::Idle),
{
}

/// A mention that asks for neither a selfie nor an attack, and is not the
/// ping command, is answered with the drawn cry as plain text, and that
/// text is one of the three cries.
pub proof fn plain_mention_gets_a_cry(msg: MessageView, bot: BotIdentity, cry: Cry)
    requires
        msg.mentioned.contains(bot.application_id),
        msg.text != "!ping"@,
        !has_substring(msg.text, "take a selfie"@),
        !has_substring(msg.text, "attack"@),
    ensures
        next(Stage::AwaitingIdentity, msg, EventView::IdentityKnown(bot), cry) == (
            Stage::AwaitingDelivery,
            send_text(msg, cry_text(cry)),
        ),
        is_cry(cry_text(cry)),
{
}

/// A mention that holds "take a selfie" starts an image lookup, and the
/// address the lookup finds goes out as the embedded image of a reply whose
/// text is the cry drawn before the lookup, one of the three.
pub proof fn selfie_reply_embeds_the_found_image(
    msg: MessageView,
    bot: BotIdentity,
    cry: Cry,
    url: Seq<char>,
    later_cry: Cry,
)
    requires
        msg.mentioned.contains(bot.application_id),
        has_substring(msg.text, "take a selfie"@),
    ensures
        route_of(msg, bot) == Route::Selfie,
        next(Stage::AwaitingIdentity, msg, EventView::IdentityKnown(bot), cry) == (
            Stage::AwaitingImage(cry),
            ActionView::LookupImage,
        ),
        next(Stage::AwaitingImage(cry), msg, EventView::ImageFound(url), later_cry) == (
            Stage::AwaitingDelivery,
            ActionView::Send {
                channel_id: msg.channel_id,
                reply: ReplyView { text: cry_text(cry), image_url: Some(url) },
            },
        ),
        is_cry(cry_text(cry)),
{
    reveal_strlit("!ping");
    reveal_strlit("take a selfie");
    substring_is_no_longer(msg.text, "take a selfie"@);
}

/// A mention that holds "attack", and does not ask for a selfie, starts a
/// move lookup, and the name the lookup finds goes out in the fixed
/// sentence, as plain text.
pub proof fn attack_reply_names_the_found_move(
    msg: MessageView,
    bot: BotIdentity,
    cry: Cry,
    move_name: Seq<char>,
    later_cry: Cry,
)
    requires
        msg.mentioned.contains(bot.application_id),
        has_substring(msg.text, "attack"@),
        !has_substring(msg.text, "take a selfie"@),
    ensures
        route_of(msg, bot) == Route::Attack,
        next(Stage::AwaitingIdentity, msg, EventView::IdentityKnown(bot), cry) == (
            Stage::AwaitingMove,
            ActionView::LookupMove,
        ),
        next(Stage::AwaitingMove, msg, EventView::MoveFound(move_name), later_cry) == (
            Stage::AwaitingDelivery,
            send_text(msg, "Squirtle use "@ + move_name + ". It's super effective."@),
        ),
{
    reveal_strlit("!ping");
    reveal_strlit("attack");
    substring_is_no_longer(msg.text, "attack"@);
}

/// Handling the same message twice takes the same course: whatever cries
/// are drawn and whatever the lookups select, the two handlings stay in
/// like stages and ask for actions of the same shape.
pub proof fn same_message_same_shape(
    msg: MessageView,
    first_stage: Stage,
    second_stage: Stage,
    first_event: EventView,
    second_event: EventView,
    first_cry: Cry,
    second_cry: Cry,
)
    requires
        alike_stages(first_stage, second_stage),
        alike_events(first_event, second_event),
    ensures
        alike_stages(
            next(first_stage, msg, first_event, first_cry).0,
            next(second_stage, msg, second_event, second_cry).0,
        ),
        shape_of(next(first_stage, msg, first_event, first_cry).1) == shape_of(
            next(second_stage, msg, second_event, second_cry).1,
        ),
{
}

/// A handling that has finished stays finished and asks for nothing.
pub proof fn finished_is_final(msg: MessageView, event: EventView, cry: Cry)
    ensures
        next(Stage::Finished, msg, event, cry) == (Stage::Finished, ActionView::Idle),
{
}

/// Every failure ends the handling with a report and without a reply.
pub proof fn failure_ends_without_reply(stage: Stage, msg: MessageView, event: EventView, cry: Cry)
    requires
        next(stage, msg, event, cry).1 is Report,
    ensures
        next(stage, msg, event, cry).0 == Stage::Finished,
{
}

} // verus!
