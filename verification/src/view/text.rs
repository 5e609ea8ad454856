//! The text renderer: one plain line per record, emitted immediately.

use vstd::prelude::*;
use vstd::string::StringExecFns;
use crate::strbuild::push_char;
use crate::view::addr_to_string;
use crate::view::spec_addr_chars;
use crate::view::PacketInfo;
use crate::view::PacketInfoV;

verus! {

/// The text line for one record: the destination address, then the queried
/// name after a space when the name toggle is on.
pub open spec fn spec_text_line(p: PacketInfoV, print_name: bool) -> Seq<char> {
    spec_addr_chars(p.dst) + if print_name {
        seq![' '] + p.query_name
    } else {
        Seq::<char>::empty()
    }
}

/// Renders each record as `<dst-ip>` followed, when enabled, by the queried
/// name; it buffers nothing, so its flush does no work.
pub struct TextView {
    pub print_name: bool,
}

impl TextView {
    pub fn new(print_name: bool) -> (v: TextView)
        ensures
            v.print_name == print_name,
    {
        TextView { print_name }
    }

    /// The output line for one record.
    pub fn render(&self, pkt: &PacketInfo) -> (line: String)
        ensures
            line@ == spec_text_line(pkt@, self.print_name),
    {
        let mut s = addr_to_string(&pkt.dst);
        if self.print_name {
            push_char(&mut s, ' ');
            s.append(pkt.query_name.as_str());
        }
        proof {
            assert(s@ =~= spec_text_line(pkt@, self.print_name));
        }
        s
    }

    /// Text lines are emitted per record, so there is nothing to flush.
    pub fn flush(&mut self)
        ensures
            final(self).print_name == old(self).print_name,
    {
    }
}

} // verus!
