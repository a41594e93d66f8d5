//! What goes out: the reply to an on-demand query, and the deliveries of a
//! scheduled broadcast.

use crate::engine::outcome_view;
use crate::engine::NoticeError;
use crate::text::same_text;
use vstd::prelude::*;
use vstd::string::StringExecFns;

verus! {

/// The message that asks for the current notice.
pub const CHECK_COMMAND: &'static str = "/check";

/// The reply when no outage is due.
pub const NO_OUTAGE_REPLY: &'static str = "There is no planed power outage";

/// The reply when the schedule could not be fetched or read.
pub const FAILURE_REPLY: &'static str = "The outage schedule could not be read";

/// A recipient of the scheduled broadcast.
#[derive(Clone, Debug, PartialEq, Eq)]
pub struct Subscriber {
    /// A free-form label.
    pub name: String,
    /// The chat that notices go to.
    pub chat_id: i64,
}

/// One message of a broadcast.
#[derive(Clone, Debug, PartialEq, Eq)]
pub struct Delivery {
    /// The chat that the message goes to.
    pub chat_id: i64,
    /// The text of the message.
    pub text: String,
}

/// A delivery as plain values.
pub struct DeliveryView {
    pub chat_id: int,
    pub text: Seq<char>,
}

impl View for Delivery {
    type V = DeliveryView;

    open spec fn view(&self) -> DeliveryView {
        DeliveryView { chat_id: self.chat_id as int, text: self.text@ }
    }
}

/// The plain-value form of each delivery in `deliveries`.
pub open spec fn deliveries_view(deliveries: Seq<Delivery>) -> Seq<DeliveryView> {
    deliveries.map_values(|delivery: Delivery| delivery@)
}

/// The broadcast of `notice`: one delivery for each subscriber, in the
/// store's order, all with the same text.
pub open spec fn broadcast_of(notice: Seq<char>, subscribers: Seq<Subscriber>) -> Seq<
    DeliveryView,
> {
    subscribers.map_values(
        |subscriber: Subscriber| DeliveryView { chat_id: subscriber.chat_id as int, text: notice },
    )
}

/// The reply that an outcome of the engine calls for.
pub open spec fn reply_of(outcome: Result<Option<Seq<char>>, NoticeError>) -> Seq<char> {
    match outcome {
        Ok(Some(notice)) => notice,
        Ok(None) => NO_OUTAGE_REPLY@,
        Err(_) => FAILURE_REPLY@,
    }
}

/// Whether `message` is the on-demand query, letter for letter.
pub fn is_check_command(message: &str) -> (asked: bool)
    ensures
        asked == (message@ == CHECK_COMMAND@),
{
    same_text(message, CHECK_COMMAND)
}

/// The reply to an on-demand query: the notice where one is due, a fixed
/// text where none is, and another fixed text where the engine failed.
pub fn reply_text(outcome: &Result<Option<String>, NoticeError>) -> (reply: String)
    ensures
        reply@ == reply_of(outcome_view(*outcome)),
{
    match outcome {
        Ok(Some(notice)) => notice.clone(),
        Ok(None) => String::from_str(NO_OUTAGE_REPLY),
        Err(_) => String::from_str(FAILURE_REPLY),
    }
}

/// Plans the broadcast of `notice`: one delivery for each subscriber, in the
/// order of `subscribers`, so that no failed delivery can hold up another.
pub fn fan_out(notice: &str, subscribers: &Vec<Subscriber>) -> (deliveries: Vec<Delivery>)
    ensures
        deliveries_view(deliveries@) == broadcast_of(notice@, subscribers@),
{
    let mut deliveries: Vec<Delivery> = Vec::new();
    let mut i: usize = 0;
    while i < subscribers.len()
        invariant
            i <= subscribers.len(),
            deliveries_view(deliveries@) == broadcast_of(notice@, subscribers@.take(i as int)),
        decreases subscribers.len() - i,
    {
        let delivery = Delivery { chat_id: subscribers[i].chat_id, text: String::from_str(notice) };
        proof {
            assert(broadcast_of(notice@, subscribers@.take(i + 1)) =~= broadcast_of(
                notice@,
                subscribers@.take(i as int),
            ).push(delivery@));
        }
        deliveries.push(delivery);
        i += 1;
    }
    deliveries
}

} // verus!
