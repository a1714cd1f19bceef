//! Control handle of a multiplexed session.
//!
//! A session is run by one actor, which owns every stream and the connection
//! itself. Everybody else talks to it through a [`Control`]: a cheap, cloneable
//! handle over the sending half of the actor's command channel. A call on the
//! handle offers one [`Command`] to the channel and then waits on the reply
//! slot that the command carries.
//!
//! The rules of such a call (what it does on each thing that the channel or the
//! reply slot reports) are the pure functions of [`protocol`]. The calls
//! themselves, in [`control`], are resumable: `poll` takes a call as far as it
//! can go without waiting and says whether it has ended. The channel and the
//! slot are those of the `futures` crate; [`boundary`] holds what is taken on
//! trust about them.

pub mod boundary;
pub mod control;
pub mod error;
pub mod protocol;
pub mod stream;

pub use control::{Close, Command, Control, LatestPing, OpenStream};
pub use error::Error;
pub use protocol::{Event, Phase, ReplyPoll, Request, SendPoll};
pub use stream::StreamHandle;
