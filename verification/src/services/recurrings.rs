//! The recurrings that a user keeps outside any plan.

use crate::common::errors::ApiError;
use crate::common::text::text_of;
use crate::common::ids::{object_id, object_id_of};
use crate::common::{
    first_with_id, has_id, is_malformed, lemma_first_with_id_extends, malformed_id, not_found,
};
use crate::controllers::recurring_controller::RecurringNewPayload;
use crate::models::recurring_model::{Recurring, RecurringView};
use vstd::prelude::*;

verus! {

/// The ids of the recurrings, in their order.
pub open spec fn recurring_ids(recurrings: Seq<Recurring>) -> Seq<Option<Seq<char>>> {
    Seq::new(recurrings.len(), |i: int| text_of(recurrings[i].id))
}

fn find_recurring(recurrings: &Vec<Recurring>, recurring_id: &String) -> (r: Option<usize>)
    ensures
        match r {
            Some(i) => i < recurrings@.len() && first_with_id(
                recurring_ids(recurrings@),
                recurring_id@,
            ) == Some(i as int),
            None => first_with_id(recurring_ids(recurrings@), recurring_id@) is None,
        },
{
    let ghost ids = recurring_ids(recurrings@);
    let mut i: usize = 0;
    while i < recurrings.len()
        invariant
            i <= recurrings.len(),
            ids == recurring_ids(recurrings@),
            first_with_id(ids.take(i as int), recurring_id@) is None,
        decreases recurrings.len() - i,
    {
        proof {
            assert(ids.take(i + 1).drop_last() =~= ids.take(i as int));
            assert(ids.take(i + 1).last() == ids[i as int]);
        }
        if has_id(&recurrings[i].id, recurring_id) {
            proof {
                lemma_first_with_id_extends(ids, recurring_id@, i + 1);
            }
            return Some(i);
        }
        i += 1;
    }
    proof {
        assert(ids.take(i as int) =~= ids);
    }
    None
}

/// Whether the error says that no recurring has the id that was asked for as
/// `asked`.
pub open spec fn is_no_recurring(error: ApiError, asked: Seq<char>) -> bool {
    error.code() == 400 && error.message() == "No "@ + "recurring"@ + " with id "@ + asked
        + " found in current user"@
}

/// The first of the recurrings that has the id written in `recurring_id`.
/// Fails where the text is no id, and where no recurring has the id.
pub fn get_recurring(recurring_id: String, recurrings: &Vec<Recurring>) -> (r: Result<
    Recurring,
    ApiError,
>)
    ensures
        match object_id_of(recurring_id@) {
            None => r matches Err(error) && is_malformed(error),
            Some(id) => match first_with_id(recurring_ids(recurrings@), id) {
                Some(i) => r == Ok::<Recurring, ApiError>(recurrings@[i]),
                None => r matches Err(error) && is_no_recurring(error, recurring_id@),
            },
        },
{
    let id = match object_id(recurring_id.as_str()) {
        Some(id) => id,
        None => {
            return Err(malformed_id());
        },
    };
    match find_recurring(recurrings, &id) {
        Some(i) => Ok(recurrings[i].clone()),
        None => Err(not_found("recurring", &recurring_id)),
    }
}

/// Adds the stated recurring, under the id `fresh_id`, to the recurrings of a
/// user.
pub fn new_recurring(
    recurrings: &mut Vec<Recurring>,
    payload: RecurringNewPayload,
    fresh_id: String,
) -> (recurring: Recurring)
    ensures
        recurring@ == (RecurringView { id: Some(fresh_id@), ..payload@ }),
        final(recurrings)@ == old(recurrings)@.push(recurring),
{
    let mut recurring = payload.into_recurring();
    recurring.id = Some(fresh_id);
    recurrings.push(recurring.clone());
    recurring
}

/// Puts the stated recurring in the place of the first recurring that has the
/// id written in `recurring_id`. Fails, and changes nothing, where the text is
/// no id, and where no recurring has the id.
pub fn update_recurring(
    recurrings: &mut Vec<Recurring>,
    recurring_id: String,
    payload: RecurringNewPayload,
) -> (r: Result<Recurring, ApiError>)
    ensures
        match object_id_of(recurring_id@) {
            None => r matches Err(error) && is_malformed(error) && final(recurrings)@ == old(
                recurrings,
            )@,
            Some(id) => match first_with_id(recurring_ids(old(recurrings)@), id) {
                Some(i) => {
                    &&& r matches Ok(recurring) && recurring@ == (RecurringView {
                        id: Some(id),
                        ..payload@
                    }) && final(recurrings)@ == old(recurrings)@.update(i, recurring)
                },
                None => {
                    &&& r matches Err(error) && is_no_recurring(error, recurring_id@)
                    &&& final(recurrings)@ == old(recurrings)@
                },
            },
        },
{
    let id = match object_id(recurring_id.as_str()) {
        Some(id) => id,
        None => {
            return Err(malformed_id());
        },
    };
    match find_recurring(recurrings, &id) {
        Some(i) => {
            let mut recurring = payload.into_recurring();
            recurring.id = Some(id);
            recurrings[i] = recurring.clone();
            Ok(recurring)
        },
        None => Err(not_found("recurring", &recurring_id)),
    }
}

/// Takes the first recurring that has the id written in `recurring_id` from
/// the recurrings of a user, the last one moving into its place. Fails, and
/// changes nothing, where the text is no id, and where no recurring has the id.
pub fn delete_recurring(recurrings: &mut Vec<Recurring>, recurring_id: String) -> (r: Result<
    Recurring,
    ApiError,
>)
    ensures
        match object_id_of(recurring_id@) {
            None => r matches Err(error) && is_malformed(error) && final(recurrings)@ == old(
                recurrings,
            )@,
            Some(id) => match first_with_id(recurring_ids(old(recurrings)@), id) {
                Some(i) => {
                    &&& r == Ok::<Recurring, ApiError>(old(recurrings)@[i])
                    &&& final(recurrings)@ == old(recurrings)@.update(
                        i,
                        old(recurrings)@.last(),
                    ).drop_last()
                },
                None => {
                    &&& r matches Err(error) && is_no_recurring(error, recurring_id@)
                    &&& final(recurrings)@ == old(recurrings)@
                },
            },
        },
{
    let id = match object_id(recurring_id.as_str()) {
        Some(id) => id,
        None => {
            return Err(malformed_id());
        },
    };
    match find_recurring(recurrings, &id) {
        Some(i) => Ok(recurrings.swap_remove(i)),
        None => Err(not_found("recurring", &recurring_id)),
    }
}

} // verus!
