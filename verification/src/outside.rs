//! What only the outside world can tell: the time, and chance.
//!
//! A value is no witness of where it came from: any moment could be the present, and any UUID
//! a random one. The two predicates here mark where a value came from. By definition they say
//! no more than what any such value looks like; but they are closed, so that no other module
//! can conclude them of a value. Only the functions that read the clock and draw a UUID hand
//! them out, and a contract that asks for the mark asks for their result.
use crate::leader::identity::is_uuid_v4;
use crate::timestamp::Moment;
use vstd::prelude::*;

verus! {

/// The mark of a moment that was read from the wall clock: the clock can show it.
pub closed spec fn shown(time: Moment) -> bool {
    time.on_clock()
}

/// The mark of a UUID that was drawn at random: it has the form of one.
pub closed spec fn drawn(text: Seq<char>) -> bool {
    is_uuid_v4(text)
}

} // verus!
