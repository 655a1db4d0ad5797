//! What a sub channel computes on the data of the Lightning channel manager.

use lightning::util::errors::APIError;
use vstd::prelude::*;

use crate::error::Error;
use crate::subchannel::ChannelDetails;
use crate::ChannelId;

verus! {

/// Whether two identifiers hold the same bytes.
pub fn same_channel_id(first: &ChannelId, second: &ChannelId) -> (same: bool)
    ensures
        same <==> first@ == second@,
{
    let mut i: usize = 0;
    while i < 32
        invariant
            i <= 32,
            forall|k: int| 0 <= k < i ==> first@[k] == second@[k],
        decreases 32 - i,
    {
        if first[i] != second[i] {
            return false;
        }
        i += 1;
    }
    assert(first@ =~= second@);
    true
}

/// The position of the first channel with the given `channel_id` in the list, if there is
/// one.
pub fn channel_position(channels: &Vec<ChannelDetails>, channel_id: &ChannelId) -> (found: Option<
    usize,
>)
    ensures
        match found {
            Some(position) => position < channels@.len() && channels@[position as int].channel_id@
                == channel_id@ && forall|k: int|
                0 <= k < position ==> (#[trigger] channels@[k]).channel_id@ != channel_id@,
            None => forall|i: int|
                0 <= i < channels@.len() ==> (#[trigger] channels@[i]).channel_id@ != channel_id@,
        },
{
    let mut i: usize = 0;
    while i < channels.len()
        invariant
            i <= channels@.len(),
            forall|k: int| 0 <= k < i ==> (#[trigger] channels@[k]).channel_id@ != channel_id@,
        decreases channels@.len() - i,
    {
        if same_channel_id(&channels[i].channel_id, channel_id) {
            return Some(i);
        }
        i += 1;
    }
    None
}

/// Returns the details of the channel with given `channel_id` if found: those of the first
/// such channel in the list.
pub fn get_channel_details<'a>(channels: &'a Vec<ChannelDetails>, channel_id: &ChannelId) -> (found:
    Option<&'a ChannelDetails>)
    ensures
        match found {
            Some(details) => exists|i: int|
                0 <= i < channels@.len() && *details == #[trigger] channels@[i]
                    && details.channel_id@ == channel_id@ && forall|k: int|
                    0 <= k < i ==> (#[trigger] channels@[k]).channel_id@ != channel_id@,
            None => forall|i: int|
                0 <= i < channels@.len() ==> (#[trigger] channels@[i]).channel_id@ != channel_id@,
        },
{
    match channel_position(channels, channel_id) {
        Some(position) => Some(&channels[position]),
        None => None,
    }
}

/// The text that describes an error of the Lightning channel manager to a reader of logs.
pub uninterp spec fn api_error_description(error: APIError) -> Seq<char>;

/// `format!` with the `Debug` implementation of `lightning::util::errors::APIError`: the
/// text that describes the error, which depends on the error alone.
#[verifier::external_body]
fn api_error_text(error: &APIError) -> (text: String)
    ensures
        text@ == api_error_description(*error),
{
    format!("{error:?}")
}

/// What the attempt of the channel manager to force close a channel means to the sub channel
/// protocol: a failure of the channel manager is an error of the protocol that carries the
/// description of the failure.
pub fn force_close_result(closed: Result<(), APIError>) -> (result: Result<(), Error>)
    ensures
        match closed {
            Ok(_) => result is Ok,
            Err(cause) => result matches Err(Error::InvalidParameters(text)) && text@
                == api_error_description(cause),
        },
{
    match closed {
        Ok(()) => Ok(()),
        Err(error) => Err(Error::InvalidParameters(api_error_text(&error))),
    }
}

/// The index of a funding output as Lightning counts it: the lowest 16 bits of the index of
/// the output in its transaction.
pub fn funding_output_index(vout: u32) -> (index: u16)
    ensures
        index == vout % 0x1_0000,
{
    assert(vout as u16 == vout % 0x1_0000) by (bit_vector);
    vout as u16
}

} // verus!
