//! The identifiers of the items emitted for a protocol.
use crate::channel_protocol::{Protocol, ProtocolView};
use vstd::prelude::*;
use vstd::string::StringExecFns;

verus! {

impl ProtocolView {
    /// The identifier of the message enum: the protocol's name followed by
    /// `Message`.
    pub open spec fn message_enum_ident(self) -> Seq<char> {
        self.ident + "Message"@
    }
}

impl Protocol {
    /// The identifier of the message enum.
    pub fn message_enum_ident(&self) -> (out: String)
        ensures
            out@ == self@.message_enum_ident(),
    {
        self.ident.clone().concat("Message")
    }
}

} // verus!
