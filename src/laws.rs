//! Properties of the search that span several calls.
use vstd::prelude::*;
use crate::api::{RequestView, STATUS_CREATED, STATUS_NO_CONTENT};
use crate::bucket::{accepted, bucket_of, bucket_spec, hash_key, murmur3_32_of, BUCKET_COUNT};
use crate::search::{guild_bucket, guild_key_fits, step_spec, ActionView, EventView, PhaseView, SearchView};

verus! {

/// Whether an action sends a create request.
pub open spec fn sends_create(a: ActionView) -> bool {
    match a {
        ActionView::Send { request: RequestView::CreateGuild { .. } } => true,
        _ => false,
    }
}

/// Whether an event confirms the deletion that the search waits for.
pub open spec fn confirms_delete(s: SearchView, e: EventView) -> bool {
    s.phase is Deleting && e == (EventView::DeleteAnswered { status: STATUS_NO_CONTENT })
}

/// The search after a sequence of events.
pub open spec fn run(s: SearchView, es: Seq<EventView>) -> SearchView
    decreases es.len(),
{
    if es.len() == 0 {
        s
    } else {
        step_spec(run(s, es.drop_last()), es.last()).0
    }
}

/// How many create requests a sequence of events makes the search send.
pub open spec fn creates(s: SearchView, es: Seq<EventView>) -> nat
    decreases es.len(),
{
    if es.len() == 0 {
        0
    } else {
        creates(s, es.drop_last()) + if sends_create(
            step_spec(run(s, es.drop_last()), es.last()).1,
        ) {
            1nat
        } else {
            0nat
        }
    }
}

/// How many deletions the search saw confirmed along a sequence of events.
pub open spec fn deletes(s: SearchView, es: Seq<EventView>) -> nat
    decreases es.len(),
{
    if es.len() == 0 {
        0
    } else {
        deletes(s, es.drop_last()) + if confirms_delete(run(s, es.drop_last()), es.last()) {
            1nat
        } else {
            0nat
        }
    }
}

/// The bucket is a function of the label and the identifier alone: the
/// 32-bit hash of `<label>:<id>` modulo the bucket count, always below it.
pub proof fn lemma_bucket_is_function(label1: Seq<u8>, id1: Seq<u8>, label2: Seq<u8>, id2: Seq<u8>)
    requires
        label1 == label2,
        id1 == id2,
    ensures
        bucket_spec(label1, id1) == bucket_spec(label2, id2),
        bucket_spec(label1, id1) == murmur3_32_of(hash_key(label1, id1)) % BUCKET_COUNT,
        bucket_spec(label1, id1) < BUCKET_COUNT,
{
}

/// A created guild whose bucket is accepted is kept and ends the search;
/// one whose bucket is rejected is deleted next. (A key too long to hash
/// stops the search instead, with no bucket to judge.)
pub proof fn lemma_accept_keeps_reject_deletes(s: SearchView, status: u16, guild_id: Seq<char>)
    requires
        s.phase is Creating,
        status == STATUS_CREATED,
        guild_key_fits(s.label, guild_id),
    ensures
        ({
            let (t, a) = step_spec(
                s,
                EventView::CreateAnswered { status, guild_id: Some(guild_id) },
            );
            &&& accepted(guild_bucket(s.label, guild_id)) ==> a == (ActionView::Found { guild_id })
                && t.phase == (PhaseView::Found { guild_id })
            &&& !accepted(guild_bucket(s.label, guild_id)) ==> a == (ActionView::Send {
                request: RequestView::DeleteGuild { guild_id },
            }) && t.phase == (PhaseView::Deleting { guild_id })
        }),
{
}

/// A guild that was found stays found: whatever comes next, the search
/// only reports it again and never asks for its deletion.
pub proof fn lemma_found_is_final(s: SearchView, e: EventView)
    requires
        s.phase is Found,
    ensures
        step_spec(s, e) == (s, ActionView::Found { guild_id: s.phase->Found_guild_id }),
{
}

/// A rejected guild blocks new attempts: while its deletion is pending, no
/// event makes the search create another guild.
pub proof fn lemma_no_create_while_deleting(s: SearchView, e: EventView)
    requires
        s.phase is Deleting,
    ensures
        !sends_create(step_spec(s, e).1),
        step_spec(s, e).0.phase is Idle ==> confirms_delete(s, e),
{
}

proof fn lemma_count_invariant(s: SearchView, es: Seq<EventView>)
    requires
        s.phase is Idle,
    ensures
        deletes(s, es) <= creates(s, es) <= deletes(s, es) + 1,
        run(s, es).phase is Idle ==> creates(s, es) == deletes(s, es),
        (run(s, es).phase is Creating || run(s, es).phase is Deleting || run(s, es).phase is Found)
            ==> creates(s, es) == deletes(s, es) + 1,
    decreases es.len(),
{
    if es.len() > 0 {
        lemma_count_invariant(s, es.drop_last());
    }
}

/// At most one guild of the search is alive at a time: from a search that
/// has not started, a create request is sent only once every guild created
/// before it has been deleted, so creations never exceed confirmed
/// deletions by more than one.
pub proof fn lemma_one_live_guild(s: SearchView, es: Seq<EventView>, e: EventView)
    requires
        s.phase is Idle,
    ensures
        creates(s, es) <= deletes(s, es) + 1,
        sends_create(step_spec(run(s, es), e).1) ==> creates(s, es) == deletes(s, es),
{
    lemma_count_invariant(s, es);
}

} // verus!
