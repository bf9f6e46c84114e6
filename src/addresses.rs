//! One line of text per network, listing the server's addresses on it.

use vstd::prelude::*;
use vstd::string::StringExecFns;

verus! {

/// An address of the server and, when the service gives it, its kind
/// (`fixed`, `floating`).
pub struct AddressEntry {
    pub addr: String,
    pub addr_type: Option<String>,
}

/// The server's addresses on one network.
pub struct NetworkAddresses {
    pub network: String,
    pub entries: Vec<AddressEntry>,
}

/// `<addr> - <kind> `, where a missing kind reads `None`.
pub open spec fn entry_text(entry: AddressEntry) -> Seq<char> {
    let kind = match entry.addr_type {
        Some(t) => t@,
        None => "None"@,
    };
    entry.addr@ + " - "@ + kind + " "@
}

/// The entries' texts, separated by `, `.
pub open spec fn joined_entries(entries: Seq<AddressEntry>) -> Seq<char>
    decreases entries.len(),
{
    if entries.len() == 0 {
        Seq::empty()
    } else if entries.len() == 1 {
        entry_text(entries[0])
    } else {
        joined_entries(entries.drop_last()) + ", "@ + entry_text(entries.last())
    }
}

/// `[<network>] ` followed by the joined entries.
pub open spec fn network_line(net: NetworkAddresses) -> Seq<char> {
    "["@ + net.network@ + "] "@ + joined_entries(net.entries@)
}

fn entry_string(entry: &AddressEntry) -> (r: String)
    ensures
        r@ == entry_text(*entry),
{
    let mut s = entry.addr.clone();
    s.append(" - ");
    match &entry.addr_type {
        Some(t) => s.append(t.as_str()),
        None => s.append("None"),
    }
    s.append(" ");
    s
}

/// The line for one network.
pub fn network_line_string(net: &NetworkAddresses) -> (r: String)
    ensures
        r@ == network_line(*net),
{
    let mut s = String::from_str("[");
    s.append(net.network.as_str());
    s.append("] ");
    let ghost head = s@;
    let mut i: usize = 0;
    while i < net.entries.len()
        invariant
            i <= net.entries.len(),
            head == "["@ + net.network@ + "] "@,
            s@ == head + joined_entries(net.entries@.subrange(0, i as int)),
        decreases net.entries.len() - i,
    {
        let ghost before = net.entries@.subrange(0, i as int);
        let ghost after = net.entries@.subrange(0, i + 1);
        assert(after.drop_last() == before);
        if i > 0 {
            s.append(", ");
        }
        let piece = entry_string(&net.entries[i]);
        s.append(piece.as_str());
        assert(s@ == head + joined_entries(after)) by {
            if i == 0 {
                assert(s@ =~= head + entry_text(after[0]));
            } else {
                assert(s@ =~= head + (joined_entries(before) + ", "@ + entry_text(after.last())));
            }
        }
        i = i + 1;
    }
    assert(net.entries@.subrange(0, net.entries.len() as int) == net.entries@);
    s
}

/// One line per network, in the order given.
pub fn network_lines(nets: &Vec<NetworkAddresses>) -> (r: Vec<String>)
    ensures
        r.len() == nets.len(),
        forall|i: int| 0 <= i < nets.len() ==> (#[trigger] r[i])@ == network_line(nets[i]),
{
    let mut lines: Vec<String> = Vec::new();
    let mut i: usize = 0;
    while i < nets.len()
        invariant
            i <= nets.len(),
            lines.len() == i,
            forall|j: int| 0 <= j < i ==> (#[trigger] lines[j])@ == network_line(nets[j]),
        decreases nets.len() - i,
    {
        lines.push(network_line_string(&nets[i]));
        i = i + 1;
    }
    lines
}

} // verus!
