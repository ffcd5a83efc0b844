//! Call-interception agent core: the dispatch protocol run around every
//! intercepted native call, the instrumentation of a stateful network
//! resource, and the admission control of the bounded span channel.

use vstd::prelude::*;

pub mod channel;
pub mod curl;
pub mod dispatch;
