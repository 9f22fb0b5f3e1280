//! The thread-creation dispatch payload: the channel value that a peer
//! announces when a thread comes into being. The channel's shape is owned by
//! the schema layer; this crate carries it opaquely.

use twilight_model::channel::Channel;
use vstd::prelude::*;

verus! {

#[verifier::external_type_specification]
#[verifier::external_body]
pub struct ExChannel(Channel);

/// A dispatch payload announcing a newly created thread, wrapping the
/// thread's channel.
#[derive(Debug)]
pub struct ThreadCreate(pub Channel);

impl ThreadCreate {
    /// The announced thread's channel.
    pub fn channel(&self) -> &Channel {
        &self.0
    }
}

} // verus!
