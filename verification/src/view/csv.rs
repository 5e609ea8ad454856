//! The CSV renderer: one comma-separated line per record, emitted immediately.

use vstd::prelude::*;
use vstd::string::StringExecFns;
use crate::strbuild::push_char;
use crate::strbuild::push_dec;
use crate::strbuild::spec_dec_chars;
use crate::view::addr_to_string;
use crate::view::spec_addr_chars;
use crate::view::spec_msg_type_char;
use crate::view::msg_type_to_string;
use crate::view::PacketInfo;
use crate::view::PacketInfoV;

verus! {

/// The CSV line for one record: the destination address, then each enabled
/// optional field after a comma, in the order port, name, kind.
pub open spec fn spec_csv_line(
    p: PacketInfoV,
    show_name: bool,
    show_type: bool,
    show_port: bool,
) -> Seq<char> {
    spec_addr_chars(p.dst) + (if show_port {
        seq![','] + spec_dec_chars(p.dst_port as int)
    } else {
        Seq::<char>::empty()
    }) + (if show_name {
        seq![','] + p.query_name
    } else {
        Seq::<char>::empty()
    }) + (if show_type {
        seq![',', spec_msg_type_char(p.msg_type)]
    } else {
        Seq::<char>::empty()
    })
}

/// Renders each record as `<dst-ip>` followed by the enabled optional fields,
/// comma-separated; it buffers nothing, so its flush does no work.
pub struct CsvView {
    pub show_name: bool,
    pub show_type: bool,
    pub show_port: bool,
}

impl CsvView {
    pub fn new(show_name: bool, show_type: bool, show_port: bool) -> (v: CsvView)
        ensures
            v.show_name == show_name,
            v.show_type == show_type,
            v.show_port == show_port,
    {
        CsvView { show_name, show_type, show_port }
    }

    /// The output line for one record.
    pub fn render(&self, pkt: &PacketInfo) -> (line: String)
        ensures
            line@ == spec_csv_line(pkt@, self.show_name, self.show_type, self.show_port),
    {
        let mut s = addr_to_string(&pkt.dst);
        if self.show_port {
            push_char(&mut s, ',');
            push_dec(&mut s, pkt.dst_port);
        }
        if self.show_name {
            push_char(&mut s, ',');
            s.append(pkt.query_name.as_str());
        }
        if self.show_type {
            push_char(&mut s, ',');
            s.append(msg_type_to_string(pkt.msg_type));
        }
        proof {
            assert(s@ =~= spec_csv_line(pkt@, self.show_name, self.show_type, self.show_port));
        }
        s
    }

    /// CSV lines are emitted per record, so there is nothing to flush.
    pub fn flush(&mut self)
        ensures
            final(self).show_name == old(self).show_name,
            final(self).show_type == old(self).show_type,
            final(self).show_port == old(self).show_port,
    {
    }
}

} // verus!
