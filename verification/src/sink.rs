//! The announcement sink's decision logic: inspect the destination
//! channel's latest message and decide whether the prior announcement is
//! edited in place or a new message is posted, together with a model of the
//! destination channel that states what reconciliation does to it.

use vstd::prelude::*;
use crate::render::NotificationCard;

verus! {

/// The most recent message observed in the destination channel: its
/// identifier and the webhook identity that authored it, if a webhook did.
#[derive(Clone, Copy, Debug)]
pub struct DestinationMessage {
    pub id: u64,
    pub author_webhook_id: Option<u64>,
}

/// What one reconciliation run does to the destination channel.
#[derive(Clone, Copy, Debug, PartialEq, Eq, Structural)]
pub enum ReconcileAction {
    /// Replace the content of the message with this identifier.
    Edit(u64),
    /// Post a new message.
    Post,
}

/// The decision rule: edit the latest message exactly when this publisher
/// identity authored it; otherwise post a new message, the channel-empty
/// case included.
pub open spec fn spec_decide(latest: Option<DestinationMessage>, publisher_id: u64) -> ReconcileAction {
    match latest {
        Some(m) => if m.author_webhook_id == Some(publisher_id) {
            ReconcileAction::Edit(m.id)
        } else {
            ReconcileAction::Post
        },
        None => ReconcileAction::Post,
    }
}

/// Decides edit-versus-post from the latest observed message.
pub fn decide_action(latest: &Option<DestinationMessage>, publisher_id: u64) -> (r: ReconcileAction)
    ensures
        r == spec_decide(*latest, publisher_id),
{
    match latest {
        Some(m) => match m.author_webhook_id {
            Some(a) => if a == publisher_id {
                ReconcileAction::Edit(m.id)
            } else {
                ReconcileAction::Post
            },
            None => ReconcileAction::Post,
        },
        None => ReconcileAction::Post,
    }
}

/// One destination-channel message as the reconciliation model sees it.
pub struct ModelMessage {
    pub id: u64,
    pub author: Option<u64>,
    pub cards: Seq<NotificationCard>,
}

/// The latest message of a modeled channel (messages oldest first).
pub open spec fn latest_of(ch: Seq<ModelMessage>) -> Option<DestinationMessage> {
    if ch.len() == 0 {
        None
    } else {
        Some(DestinationMessage { id: ch.last().id, author_webhook_id: ch.last().author })
    }
}

/// What an action does to the channel: a post appends a fresh message from
/// the publisher; an edit replaces the card list of the message with the
/// edited identifier, leaving identity and authorship as they were.
pub open spec fn apply_action(
    ch: Seq<ModelMessage>,
    action: ReconcileAction,
    publisher_id: u64,
    cards: Seq<NotificationCard>,
    new_id: u64,
) -> Seq<ModelMessage> {
    match action {
        ReconcileAction::Post => ch.push(
            ModelMessage { id: new_id, author: Some(publisher_id), cards },
        ),
        ReconcileAction::Edit(mid) => Seq::new(
            ch.len(),
            |i: int| if ch[i].id == mid {
                ModelMessage { id: ch[i].id, author: ch[i].author, cards }
            } else {
                ch[i]
            },
        ),
    }
}

/// One whole reconciliation run against a modeled channel: read the latest
/// message, decide, act.
pub open spec fn reconcile_model(
    ch: Seq<ModelMessage>,
    publisher_id: u64,
    cards: Seq<NotificationCard>,
    new_id: u64,
) -> Seq<ModelMessage> {
    apply_action(ch, spec_decide(latest_of(ch), publisher_id), publisher_id, cards, new_id)
}

/// No two messages share an identifier.
pub open spec fn distinct_ids(ch: Seq<ModelMessage>) -> bool {
    forall|i: int, j: int| 0 <= i < j < ch.len() ==> ch[i].id != ch[j].id
}

/// The identifier appears nowhere in the channel.
pub open spec fn fresh_id(ch: Seq<ModelMessage>, id: u64) -> bool {
    forall|i: int| 0 <= i < ch.len() ==> ch[i].id != id
}

/// How many messages the publisher identity authored.
pub open spec fn count_by(ch: Seq<ModelMessage>, publisher_id: u64) -> nat
    decreases ch.len(),
{
    if ch.len() == 0 {
        0
    } else {
        count_by(ch.drop_last(), publisher_id)
            + if ch.last().author == Some(publisher_id) { 1nat } else { 0nat }
    }
}

/// Channels whose messages agree on authorship have the same publisher
/// counts.
proof fn lemma_count_same_authors(a: Seq<ModelMessage>, b: Seq<ModelMessage>, publisher_id: u64)
    requires
        a.len() == b.len(),
        forall|i: int| 0 <= i < a.len() ==> a[i].author == b[i].author,
    ensures
        count_by(a, publisher_id) == count_by(b, publisher_id),
    decreases a.len(),
{
    if a.len() > 0 {
        lemma_count_same_authors(a.drop_last(), b.drop_last(), publisher_id);
    }
}

/// Non-publisher preservation: when the channel is empty or its latest
/// message was authored by a different identity, reconciliation posts a new
/// message and leaves every existing message untouched.
pub proof fn lemma_non_publisher_preserved(
    ch: Seq<ModelMessage>,
    publisher_id: u64,
    cards: Seq<NotificationCard>,
    new_id: u64,
)
    requires
        ch.len() == 0 || latest_of(ch).unwrap().author_webhook_id != Some(publisher_id),
    ensures
        spec_decide(latest_of(ch), publisher_id) == ReconcileAction::Post,
        reconcile_model(ch, publisher_id, cards, new_id).len() == ch.len() + 1,
        forall|i: int|
            0 <= i < ch.len() ==> reconcile_model(ch, publisher_id, cards, new_id)[i] == ch[i],
        reconcile_model(ch, publisher_id, cards, new_id).last()
            == (ModelMessage { id: new_id, author: Some(publisher_id), cards }),
{
}

/// Freshness: whatever the channel held, after one reconciliation run its
/// latest message is the publisher's and carries the fresh cards.
pub proof fn lemma_reconcile_freshens(
    ch: Seq<ModelMessage>,
    publisher_id: u64,
    cards: Seq<NotificationCard>,
    new_id: u64,
)
    ensures
        ({
            let ch1 = reconcile_model(ch, publisher_id, cards, new_id);
            &&& ch1.len() > 0
            &&& ch1.last().author == Some(publisher_id)
            &&& ch1.last().cards == cards
        }),
{
}

/// Idempotent reconciliation: after one run, the latest message is the
/// publisher's and holds the new cards; a second run with the same cards
/// performs an edit of that message and leaves the channel exactly as the
/// first run left it.
pub proof fn lemma_reconcile_idempotent(
    ch: Seq<ModelMessage>,
    publisher_id: u64,
    cards: Seq<NotificationCard>,
    id1: u64,
    id2: u64,
)
    requires
        distinct_ids(ch),
        fresh_id(ch, id1),
    ensures
        ({
            let ch1 = reconcile_model(ch, publisher_id, cards, id1);
            let ch2 = reconcile_model(ch1, publisher_id, cards, id2);
            &&& ch1.len() > 0
            &&& ch1.last().author == Some(publisher_id)
            &&& ch1.last().cards == cards
            &&& spec_decide(latest_of(ch1), publisher_id)
                == ReconcileAction::Edit(ch1.last().id)
            &&& ch2 == ch1
        }),
{
    let ch1 = reconcile_model(ch, publisher_id, cards, id1);
    let ch2 = reconcile_model(ch1, publisher_id, cards, id2);
    if ch.len() > 0 && ch.last().author == Some(publisher_id) {
        // First run edits the latest message in place.
        let mid = ch.last().id;
        assert(ch1.len() == ch.len());
        assert(ch1.last() == (ModelMessage { id: mid, author: ch.last().author, cards }));
        // The second run edits the same message with the same cards.
        assert(spec_decide(latest_of(ch1), publisher_id) == ReconcileAction::Edit(mid));
        assert(forall|i: int| 0 <= i < ch1.len() - 1 ==> ch1[i].id != mid);
        assert(forall|i: int| 0 <= i < ch2.len() ==> ch2[i] == ch1[i]);
        assert(ch2 =~= ch1);
    } else {
        // First run posts a new message.
        assert(ch1 == ch.push(ModelMessage { id: id1, author: Some(publisher_id), cards }));
        // The second run edits the freshly posted message with the same cards.
        assert(spec_decide(latest_of(ch1), publisher_id) == ReconcileAction::Edit(id1));
        assert(forall|i: int| 0 <= i < ch1.len() - 1 ==> ch1[i].id != id1);
        assert(forall|i: int| 0 <= i < ch2.len() ==> ch2[i] == ch1[i]);
        assert(ch2 =~= ch1);
    }
}

/// A single announcement: when the publisher owns at most one message — the
/// latest one, if any — a reconciliation run leaves the channel with exactly
/// one message from this publisher, and it carries the fresh cards.
pub proof fn lemma_single_announcement(
    ch: Seq<ModelMessage>,
    publisher_id: u64,
    cards: Seq<NotificationCard>,
    new_id: u64,
)
    requires
        distinct_ids(ch),
        count_by(ch, publisher_id) == 0 || (ch.len() > 0
            && ch.last().author == Some(publisher_id) && count_by(ch, publisher_id) == 1),
    ensures
        ({
            let ch1 = reconcile_model(ch, publisher_id, cards, new_id);
            &&& count_by(ch1, publisher_id) == 1
            &&& ch1.last().author == Some(publisher_id)
            &&& ch1.last().cards == cards
        }),
{
    let ch1 = reconcile_model(ch, publisher_id, cards, new_id);
    if ch.len() > 0 && ch.last().author == Some(publisher_id) {
        // The run edits the latest message, preserving every authorship.
        assert(count_by(ch, publisher_id) >= 1);
        assert(ch1.len() == ch.len());
        assert(forall|i: int| 0 <= i < ch1.len() ==> ch1[i].author == ch[i].author);
        lemma_count_same_authors(ch, ch1, publisher_id);
        assert(ch1.last() == (ModelMessage {
            id: ch.last().id,
            author: ch.last().author,
            cards,
        }));
    } else {
        // The run appends the publisher's first message.
        assert(count_by(ch, publisher_id) == 0) by {
            if count_by(ch, publisher_id) != 0 {
                assert(ch.len() > 0 && ch.last().author == Some(publisher_id)
                    && count_by(ch, publisher_id) == 1);
            }
        }
        assert(ch1 == ch.push(ModelMessage { id: new_id, author: Some(publisher_id), cards }));
        assert(ch1.drop_last() =~= ch);
        assert(count_by(ch1, publisher_id) == 1);
    }
}

} // verus!
