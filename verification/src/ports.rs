//! Open ports: the records of a listing, and how a listing is filtered,
//! ordered and cut short.

use crate::text::{
    ascii_fold_equal, eq_ignore_ascii_case, lemma_text_le_total, lemma_text_le_transitive, text_le,
    text_not_after,
};
use vstd::seq_lib::to_multiset_insert;
use vstd::prelude::*;

verus! {

/// One open port.
#[derive(Clone, Debug, PartialEq, Eq)]
pub struct PortInfo {
    pub protocol: String,
    pub local_address: String,
    pub local_port: u16,
    pub remote_address: Option<String>,
    pub remote_port: Option<u16>,
    pub state: Option<String>,
    pub pid: Option<u32>,
    pub process_name: Option<String>,
}

/// What a listing is ordered by.
#[derive(Clone, Copy, Debug, PartialEq, Eq, Structural)]
pub enum SortOption {
    Port,
    Protocol,
    Process,
    State,
}

/// How a listing is filtered, ordered and cut short.
#[derive(Clone, Debug, PartialEq, Eq)]
pub struct PortListOptions {
    pub show_all: bool,
    pub filter_protocol: Option<String>,
    pub filter_port: Option<u16>,
    pub filter_pid: Option<u32>,
    pub sort_by: SortOption,
    pub limit: Option<usize>,
}

/// The mathematical value of an optional text.
pub open spec fn optional_text(text: Option<String>) -> Option<Seq<char>> {
    match text {
        Some(text) => Some(text@),
        None => None,
    }
}

/// An optional text, read as the empty text where it is missing.
pub open spec fn text_or_empty(text: Option<Seq<char>>) -> Seq<char> {
    match text {
        Some(text) => text,
        None => Seq::empty(),
    }
}

/// A port as mathematical values.
pub struct PortEntry {
    pub protocol: Seq<char>,
    pub local_address: Seq<char>,
    pub local_port: u16,
    pub remote_address: Option<Seq<char>>,
    pub remote_port: Option<u16>,
    pub state: Option<Seq<char>>,
    pub pid: Option<u32>,
    pub process_name: Option<Seq<char>>,
}

impl View for PortInfo {
    type V = PortEntry;

    open spec fn view(&self) -> PortEntry {
        PortEntry {
            protocol: self.protocol@,
            local_address: self.local_address@,
            local_port: self.local_port,
            remote_address: optional_text(self.remote_address),
            remote_port: self.remote_port,
            state: optional_text(self.state),
            pid: self.pid,
            process_name: optional_text(self.process_name),
        }
    }
}

/// Options as mathematical values.
pub struct PortSelection {
    pub show_all: bool,
    pub filter_protocol: Option<Seq<char>>,
    pub filter_port: Option<u16>,
    pub filter_pid: Option<u32>,
    pub sort_by: SortOption,
    pub limit: Option<usize>,
}

impl View for PortListOptions {
    type V = PortSelection;

    open spec fn view(&self) -> PortSelection {
        PortSelection {
            show_all: self.show_all,
            filter_protocol: optional_text(self.filter_protocol),
            filter_port: self.filter_port,
            filter_pid: self.filter_pid,
            sort_by: self.sort_by,
            limit: self.limit,
        }
    }
}

impl Default for PortListOptions {
    /// No filter and no limit, ordered by port.
    fn default() -> (options: Self)
        ensures
            options@ == (PortSelection {
                show_all: false,
                filter_protocol: None,
                filter_port: None,
                filter_pid: None,
                sort_by: SortOption::Port,
                limit: None,
            }),
    {
        PortListOptions {
            show_all: false,
            filter_protocol: None,
            filter_port: None,
            filter_pid: None,
            sort_by: SortOption::Port,
            limit: None,
        }
    }
}

/// The mathematical values of a list of ports.
pub open spec fn entries(ports: Seq<PortInfo>) -> Seq<PortEntry> {
    ports.map_values(|port: PortInfo| port@)
}

/// A copy of an optional text.
fn copy_optional(text: &Option<String>) -> (r: Option<String>)
    ensures
        optional_text(r) == optional_text(*text),
{
    match text {
        Some(text) => Some(text.clone()),
        None => None,
    }
}

impl PortInfo {
    /// A copy of the record, equal to it in every field.
    pub fn duplicate(&self) -> (r: PortInfo)
        ensures
            r@ == self@,
    {
        PortInfo {
            protocol: self.protocol.clone(),
            local_address: self.local_address.clone(),
            local_port: self.local_port,
            remote_address: copy_optional(&self.remote_address),
            remote_port: self.remote_port,
            state: copy_optional(&self.state),
            pid: self.pid,
            process_name: copy_optional(&self.process_name),
        }
    }
}

/// A port passes the filters: each filter that is set agrees with it. The
/// protocol is compared without regard to ASCII case.
pub open spec fn passes(port: PortEntry, options: PortSelection) -> bool {
    &&& options.filter_protocol matches Some(protocol) ==> ascii_fold_equal(
        port.protocol,
        protocol,
    )
    &&& options.filter_port matches Some(number) ==> port.local_port == number
    &&& options.filter_pid matches Some(pid) ==> port.pid == Some(pid)
}

/// Whether `port` passes the filters of `options`.
pub fn passes_filters(port: &PortInfo, options: &PortListOptions) -> (r: bool)
    ensures
        r == passes(port@, options@),
{
    let protocol_ok = match &options.filter_protocol {
        Some(protocol) => eq_ignore_ascii_case(port.protocol.as_str(), protocol.as_str()),
        None => true,
    };
    let port_ok = match options.filter_port {
        Some(number) => port.local_port == number,
        None => true,
    };
    let pid_ok = match options.filter_pid {
        Some(wanted) => match port.pid {
            Some(pid) => pid == wanted,
            None => false,
        },
        None => true,
    };
    protocol_ok && port_ok && pid_ok
}

/// The ports that pass the filters of `options`, in the order given.
pub fn filter_ports(ports: Vec<PortInfo>, options: &PortListOptions) -> (kept: Vec<PortInfo>)
    ensures
        entries(kept@) == entries(ports@).filter(|port: PortEntry| passes(port, options@)),
{
    let ghost all = entries(ports@);
    let ghost accepts = |port: PortEntry| passes(port, options@);
    let mut kept: Vec<PortInfo> = Vec::new();
    let mut i: usize = 0;
    proof {
        assert(all.take(0) =~= Seq::empty());
        reveal_with_fuel(Seq::filter, 1);
    }
    while i < ports.len()
        invariant
            i <= ports.len(),
            all == entries(ports@),
            accepts == |port: PortEntry| passes(port, options@),
            entries(kept@) == all.take(i as int).filter(accepts),
        decreases ports.len() - i,
    {
        proof {
            all.take(i as int).lemma_filter_push(all[i as int], accepts);
            assert(all.take(i as int).push(all[i as int]) =~= all.take(i + 1));
            assert(all[i as int] == ports[i as int]@);
        }
        if passes_filters(&ports[i], options) {
            let ghost before = kept@;
            let port = ports[i].duplicate();
            kept.push(port);
            assert(entries(kept@) =~= entries(before).push(port@));
        }
        i += 1;
    }
    assert(all.take(i as int) =~= all);
    kept
}

/// `a` does not come after `b` in the order `by`. Texts are ordered by their
/// characters from the left; a missing text counts as empty.
pub open spec fn not_after(a: PortEntry, b: PortEntry, by: SortOption) -> bool {
    match by {
        SortOption::Port => a.local_port <= b.local_port,
        SortOption::Protocol => text_le(a.protocol, b.protocol),
        SortOption::Process => text_le(text_or_empty(a.process_name), text_or_empty(b.process_name)),
        SortOption::State => text_le(text_or_empty(a.state), text_or_empty(b.state)),
    }
}

/// Where `item` goes in `sorted`: behind the last port that does not come
/// after it.
pub open spec fn insertion_point(sorted: Seq<PortEntry>, item: PortEntry, by: SortOption) -> int
    decreases sorted.len(),
{
    if sorted.len() == 0 {
        0
    } else if not_after(sorted.last(), item, by) {
        sorted.len() as int
    } else {
        insertion_point(sorted.drop_last(), item, by)
    }
}

/// The ports in the order `by`; ports that tie keep the order in which they
/// were given.
pub open spec fn stable_sort(ports: Seq<PortEntry>, by: SortOption) -> Seq<PortEntry>
    decreases ports.len(),
{
    if ports.len() == 0 {
        Seq::empty()
    } else {
        let sorted = stable_sort(ports.drop_last(), by);
        sorted.insert(insertion_point(sorted, ports.last(), by), ports.last())
    }
}

/// The text of an optional string, empty where it is missing.
fn as_text(text: &Option<String>) -> (r: &str)
    ensures
        r@ == text_or_empty(optional_text(*text)),
{
    match text {
        Some(text) => text.as_str(),
        None => {
            proof {
                reveal_strlit("");
            }
            let r = "";
            assert(r@ =~= Seq::<char>::empty());
            r
        },
    }
}

/// Whether `a` does not come after `b` in the order `by`.
pub fn comes_not_after(a: &PortInfo, b: &PortInfo, by: SortOption) -> (r: bool)
    ensures
        r == not_after(a@, b@, by),
{
    match by {
        SortOption::Port => a.local_port <= b.local_port,
        SortOption::Protocol => text_not_after(a.protocol.as_str(), b.protocol.as_str()),
        SortOption::Process => text_not_after(as_text(&a.process_name), as_text(&b.process_name)),
        SortOption::State => text_not_after(as_text(&a.state), as_text(&b.state)),
    }
}

/// The insertion point lies within the list.
pub proof fn lemma_insertion_point_in_range(sorted: Seq<PortEntry>, item: PortEntry, by: SortOption)
    ensures
        0 <= insertion_point(sorted, item, by) <= sorted.len(),
    decreases sorted.len(),
{
    if sorted.len() > 0 && !not_after(sorted.last(), item, by) {
        lemma_insertion_point_in_range(sorted.drop_last(), item, by);
    }
}

/// Sorting neither adds nor drops a port.
pub proof fn lemma_sort_keeps_length(ports: Seq<PortEntry>, by: SortOption)
    ensures
        stable_sort(ports, by).len() == ports.len(),
    decreases ports.len(),
{
    if ports.len() > 0 {
        lemma_sort_keeps_length(ports.drop_last(), by);
        lemma_insertion_point_in_range(stable_sort(ports.drop_last(), by), ports.last(), by);
    }
}

/// Orders the ports by `sort_by`. Ports that tie keep their order.
pub fn sort_ports(ports: Vec<PortInfo>, sort_by: &SortOption) -> (sorted: Vec<PortInfo>)
    ensures
        entries(sorted@) == stable_sort(entries(ports@), *sort_by),
        sorted.len() == ports.len(),
{
    let by = *sort_by;
    let ghost all = entries(ports@);
    let mut sorted: Vec<PortInfo> = Vec::new();
    let mut i: usize = 0;
    proof {
        assert(all.take(0) =~= Seq::empty());
    }
    while i < ports.len()
        invariant
            i <= ports.len(),
            all == entries(ports@),
            entries(sorted@) == stable_sort(all.take(i as int), by),
            sorted.len() == i,
        decreases ports.len() - i,
    {
        let item = ports[i].duplicate();
        let ghost placed = entries(sorted@);
        let mut at: usize = sorted.len();
        proof {
            assert(placed.take(at as int) =~= placed);
        }
        while at > 0 && !comes_not_after(&sorted[at - 1], &item, by)
            invariant
                at <= sorted.len(),
                placed == entries(sorted@),
                insertion_point(placed, item@, by) == insertion_point(
                    placed.take(at as int),
                    item@,
                    by,
                ),
            decreases at,
        {
            proof {
                assert(placed.take(at as int).last() == sorted[at - 1]@);
                assert(placed.take(at as int).drop_last() =~= placed.take(at - 1));
            }
            at -= 1;
        }
        proof {
            if at > 0 {
                assert(placed.take(at as int).last() == sorted[at - 1]@);
            }
            assert(insertion_point(placed, item@, by) == at);
            assert(all.take(i + 1).drop_last() =~= all.take(i as int));
            assert(all.take(i + 1).last() == item@);
        }
        sorted.insert(at, item);
        proof {
            assert(entries(sorted@) =~= placed.insert(at as int, item@));
        }
        i += 1;
    }
    assert(all.take(i as int) =~= all);
    sorted
}

/// The first `limit` ports of a listing, or all of them where no limit is
/// set or the listing is no longer than the limit.
pub open spec fn limited(ports: Seq<PortInfo>, limit: Option<usize>) -> Seq<PortInfo> {
    match limit {
        Some(limit) => if limit < ports.len() {
            ports.take(limit as int)
        } else {
            ports
        },
        None => ports,
    }
}

/// Cuts a listing short after `limit` ports.
pub fn limit_ports(ports: Vec<PortInfo>, limit: Option<usize>) -> (kept: Vec<PortInfo>)
    ensures
        kept@ == limited(ports@, limit),
{
    let mut kept = ports;
    match limit {
        Some(limit) => {
            if limit < kept.len() {
                kept.truncate(limit);
                assert(kept@ =~= ports@.take(limit as int));
            }
        },
        None => {},
    }
    kept
}

/// The listing that the options ask for: the ports that pass the filters,
/// put in order, and cut short after the limit.
pub open spec fn selection(ports: Seq<PortEntry>, options: PortSelection) -> Seq<PortEntry> {
    let sorted = stable_sort(
        ports.filter(|port: PortEntry| passes(port, options)),
        options.sort_by,
    );
    match options.limit {
        Some(limit) => if limit < sorted.len() {
            sorted.take(limit as int)
        } else {
            sorted
        },
        None => sorted,
    }
}

/// Filters, orders and cuts short a listing as `options` asks.
pub fn select_ports(ports: Vec<PortInfo>, options: &PortListOptions) -> (listing: Vec<PortInfo>)
    ensures
        entries(listing@) == selection(entries(ports@), options@),
{
    let filtered = filter_ports(ports, options);
    let sorted = sort_ports(filtered, &options.sort_by);
    let ghost before = sorted@;
    let listing = limit_ports(sorted, options.limit);
    proof {
        match options.limit {
            Some(limit) => {
                if limit < before.len() {
                    assert(entries(before.take(limit as int)) =~= entries(before).take(
                        limit as int,
                    ));
                }
            },
            None => {},
        }
    }
    listing
}

/// Every port of the list does not come after the ports behind it.
pub open spec fn ordered(ports: Seq<PortEntry>, by: SortOption) -> bool {
    forall|i: int, j: int| 0 <= i < j < ports.len() ==> not_after(ports[i], ports[j], by)
}

/// Of two ports one does not come after the other.
pub proof fn lemma_not_after_total(a: PortEntry, b: PortEntry, by: SortOption)
    ensures
        not_after(a, b, by) || not_after(b, a, by),
{
    lemma_text_le_total(a.protocol, b.protocol);
    lemma_text_le_total(text_or_empty(a.process_name), text_or_empty(b.process_name));
    lemma_text_le_total(text_or_empty(a.state), text_or_empty(b.state));
}

/// The order of ports is transitive.
pub proof fn lemma_not_after_transitive(a: PortEntry, b: PortEntry, c: PortEntry, by: SortOption)
    requires
        not_after(a, b, by),
        not_after(b, c, by),
    ensures
        not_after(a, c, by),
{
    match by {
        SortOption::Port => {},
        SortOption::Protocol => lemma_text_le_transitive(a.protocol, b.protocol, c.protocol),
        SortOption::Process => lemma_text_le_transitive(
            text_or_empty(a.process_name),
            text_or_empty(b.process_name),
            text_or_empty(c.process_name),
        ),
        SortOption::State => lemma_text_le_transitive(
            text_or_empty(a.state),
            text_or_empty(b.state),
            text_or_empty(c.state),
        ),
    }
}

/// In an ordered list the insertion point parts the ports that do not come
/// after the item from those that do.
pub proof fn lemma_insertion_point_parts(sorted: Seq<PortEntry>, item: PortEntry, by: SortOption)
    requires
        ordered(sorted, by),
    ensures
        0 <= insertion_point(sorted, item, by) <= sorted.len(),
        forall|i: int|
            0 <= i < insertion_point(sorted, item, by) ==> not_after(#[trigger] sorted[i], item, by),
        forall|i: int|
            insertion_point(sorted, item, by) <= i < sorted.len() ==> !not_after(
                #[trigger] sorted[i],
                item,
                by,
            ),
    decreases sorted.len(),
{
    if sorted.len() > 0 {
        if not_after(sorted.last(), item, by) {
            assert forall|i: int| 0 <= i < sorted.len() implies not_after(
                #[trigger] sorted[i],
                item,
                by,
            ) by {
                if i < sorted.len() - 1 {
                    lemma_not_after_transitive(sorted[i], sorted.last(), item, by);
                }
            }
        } else {
            let rest = sorted.drop_last();
            assert forall|i: int, j: int| 0 <= i < j < rest.len() implies not_after(
                rest[i],
                rest[j],
                by,
            ) by {
                assert(not_after(sorted[i], sorted[j], by));
            }
            lemma_insertion_point_parts(rest, item, by);
            assert forall|i: int| 0 <= i < rest.len() implies rest[i] == sorted[i] by {}
        }
    }
}

/// Sorting puts the ports in order.
pub proof fn lemma_sort_orders(ports: Seq<PortEntry>, by: SortOption)
    ensures
        ordered(stable_sort(ports, by), by),
    decreases ports.len(),
{
    if ports.len() > 0 {
        let sorted = stable_sort(ports.drop_last(), by);
        let item = ports.last();
        let at = insertion_point(sorted, item, by);
        let after = sorted.insert(at, item);
        lemma_sort_orders(ports.drop_last(), by);
        lemma_insertion_point_parts(sorted, item, by);
        assert forall|i: int, j: int| 0 <= i < j < after.len() implies not_after(
            after[i],
            after[j],
            by,
        ) by {
            if j < at {
                assert(not_after(sorted[i], sorted[j], by));
            } else if j == at {
                assert(not_after(sorted[i], item, by));
            } else if i < at {
                assert(not_after(sorted[i], sorted[j - 1], by));
            } else if i == at {
                lemma_not_after_total(sorted[j - 1], item, by);
            } else {
                assert(not_after(sorted[i - 1], sorted[j - 1], by));
            }
        }
    }
}

/// Sorting keeps every port, as often as it was given.
pub proof fn lemma_sort_permutes(ports: Seq<PortEntry>, by: SortOption)
    ensures
        stable_sort(ports, by).to_multiset() == ports.to_multiset(),
    decreases ports.len(),
{
    broadcast use vstd::seq_lib::group_to_multiset_ensures;

    if ports.len() > 0 {
        let sorted = stable_sort(ports.drop_last(), by);
        lemma_sort_permutes(ports.drop_last(), by);
        lemma_insertion_point_in_range(sorted, ports.last(), by);
        to_multiset_insert(sorted, insertion_point(sorted, ports.last(), by), ports.last());
        assert(ports =~= ports.drop_last().push(ports.last()));
    } else {
        assert(stable_sort(ports, by) =~= ports);
    }
}

/// Sorting leaves a list that is in order as it is: ports that tie are never
/// exchanged.
pub proof fn lemma_sort_keeps_ordered(ports: Seq<PortEntry>, by: SortOption)
    requires
        ordered(ports, by),
    ensures
        stable_sort(ports, by) == ports,
    decreases ports.len(),
{
    if ports.len() > 0 {
        let rest = ports.drop_last();
        assert forall|i: int, j: int| 0 <= i < j < rest.len() implies not_after(
            rest[i],
            rest[j],
            by,
        ) by {
            assert(not_after(ports[i], ports[j], by));
        }
        lemma_sort_keeps_ordered(rest, by);
        if rest.len() > 0 {
            assert(not_after(ports[rest.len() - 1], ports[rest.len() as int], by));
            assert(rest.last() == ports[rest.len() - 1]);
        }
        assert(insertion_point(rest, ports.last(), by) == rest.len());
        assert(rest.insert(rest.len() as int, ports.last()) =~= ports);
    } else {
        assert(stable_sort(ports, by) =~= ports);
    }
}

} // verus!
