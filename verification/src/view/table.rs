//! The table renderer: buffers one row of cells per record and hands the
//! accumulated rows out on flush, in capture order.

use vstd::prelude::*;
use vstd::string::StringExecFns;
use crate::strbuild::push_dec;
use crate::strbuild::spec_dec_chars;
use crate::view::addr_to_string;
use crate::view::spec_addr_chars;
use crate::view::spec_msg_type_char;
use crate::view::msg_type_to_string;
use crate::view::PacketInfo;
use crate::view::PacketInfoV;

verus! {

/// The table row for one record: a cell for the destination address, then a
/// cell for each enabled optional field, in the order port, name, kind.
pub open spec fn spec_table_row(
    p: PacketInfoV,
    show_name: bool,
    show_type: bool,
    show_port: bool,
) -> Seq<Seq<char>> {
    seq![spec_addr_chars(p.dst)] + (if show_port {
        seq![spec_dec_chars(p.dst_port as int)]
    } else {
        Seq::<Seq<char>>::empty()
    }) + (if show_name {
        seq![p.query_name]
    } else {
        Seq::<Seq<char>>::empty()
    }) + (if show_type {
        seq![seq![spec_msg_type_char(p.msg_type)]]
    } else {
        Seq::<Seq<char>>::empty()
    })
}

/// Buffers one row per record; the rows are surrendered in order by `flush`,
/// after which the buffer is empty again.
pub struct TableView {
    pub show_name: bool,
    pub show_type: bool,
    pub show_port: bool,
    pub rows: Vec<Vec<String>>,
}

impl TableView {
    pub fn new(print_name: bool, print_type: bool, print_port: bool) -> (v: TableView)
        ensures
            v.show_name == print_name,
            v.show_type == print_type,
            v.show_port == print_port,
            v.rows@ =~= Seq::<Vec<String>>::empty(),
    {
        TableView {
            show_name: print_name,
            show_type: print_type,
            show_port: print_port,
            rows: Vec::new(),
        }
    }

    /// Buffers the row for one record after all rows rendered before it.
    pub fn render(&mut self, pkt: &PacketInfo)
        ensures
            final(self).rows.deep_view() == old(self).rows.deep_view().push(
                spec_table_row(pkt@, old(self).show_name, old(self).show_type, old(self).show_port),
            ),
            final(self).show_name == old(self).show_name,
            final(self).show_type == old(self).show_type,
            final(self).show_port == old(self).show_port,
    {
        let mut row: Vec<String> = Vec::new();
        row.push(addr_to_string(&pkt.dst));
        if self.show_port {
            let mut port = String::new();
            push_dec(&mut port, pkt.dst_port);
            row.push(port);
        }
        if self.show_name {
            row.push(pkt.query_name.clone());
        }
        if self.show_type {
            row.push(String::from_str(msg_type_to_string(pkt.msg_type)));
        }
        proof {
            assert(row.deep_view() =~= spec_table_row(
                pkt@,
                self.show_name,
                self.show_type,
                self.show_port,
            ));
        }
        self.rows.push(row);
        proof {
            assert(self.rows.deep_view() =~= old(self).rows.deep_view().push(
                spec_table_row(pkt@, old(self).show_name, old(self).show_type, old(self).show_port),
            ));
        }
    }

    /// Surrenders every buffered row, oldest first, and leaves the buffer
    /// empty.
    pub fn flush(&mut self) -> (rows: Vec<Vec<String>>)
        ensures
            rows == old(self).rows,
            final(self).rows@ =~= Seq::<Vec<String>>::empty(),
            final(self).show_name == old(self).show_name,
            final(self).show_type == old(self).show_type,
            final(self).show_port == old(self).show_port,
    {
        let mut rows: Vec<Vec<String>> = Vec::new();
        core::mem::swap(&mut rows, &mut self.rows);
        rows
    }
}

} // verus!
