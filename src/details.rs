use crate::record::{ProcessInfo, ProcessStatus};
use indexmap::IndexMap;
use vstd::prelude::*;

verus! {

#[verifier::external_type_specification]
#[verifier::external_body]
#[verifier::reject_recursive_types(K)]
#[verifier::reject_recursive_types(V)]
#[verifier::reject_recursive_types(S)]
pub struct ExIndexMap<K, V, S>(IndexMap<K, V, S>);

/// The entries of an insertion-ordered map, in order.
pub uninterp spec fn index_map_entries(m: IndexMap<String, String>) -> Seq<(Seq<char>, Seq<char>)>;

/// Relies on `indexmap::IndexMap::new`: a new map has no entries.
#[verifier::external_body]
fn empty_map() -> (r: IndexMap<String, String>)
    ensures
        index_map_entries(r) == Seq::<(Seq<char>, Seq<char>)>::empty(),
{
    IndexMap::new()
}

/// Relies on `indexmap::IndexMap::insert`: a key that is not present goes
/// last with its value; a present key keeps its place and takes the new value.
#[verifier::external_body]
fn map_insert(m: &mut IndexMap<String, String>, key: String, value: String)
    ensures
        (forall|i: int|
            0 <= i < index_map_entries(*old(m)).len() ==> (#[trigger] index_map_entries(*old(m))[i]).0
                != key@) ==> index_map_entries(*final(m)) == index_map_entries(*old(m)).push(
            (key@, value@),
        ),
        forall|i: int|
            0 <= i < index_map_entries(*old(m)).len() && (#[trigger] index_map_entries(*old(m))[i]).0
                == key@ ==> index_map_entries(*final(m)) == index_map_entries(*old(m)).update(
                i,
                (key@, value@),
            ),
{
    m.insert(key, value);
}

/// Decimal digits of `n`, most significant first, without leading zeros.
pub open spec fn decimal_of(n: nat) -> Seq<char>
    decreases n,
{
    if n < 10 {
        seq![digit_of(n)]
    } else {
        decimal_of(n / 10).push(digit_of(n % 10))
    }
}

/// The digit character for `d < 10`.
pub open spec fn digit_of(d: nat) -> char {
    if d == 0 {
        '0'
    } else if d == 1 {
        '1'
    } else if d == 2 {
        '2'
    } else if d == 3 {
        '3'
    } else if d == 4 {
        '4'
    } else if d == 5 {
        '5'
    } else if d == 6 {
        '6'
    } else if d == 7 {
        '7'
    } else if d == 8 {
        '8'
    } else {
        '9'
    }
}

/// Relies on `u64`'s `to_string`: its decimal digits.
#[verifier::external_body]
fn decimal_text(n: u64) -> (r: String)
    ensures
        r@ == decimal_of(n as nat),
{
    n.to_string()
}

/// The parts joined with one space between neighbours.
pub open spec fn joined(parts: Seq<String>) -> Seq<char>
    decreases parts.len(),
{
    if parts.len() == 0 {
        Seq::empty()
    } else if parts.len() == 1 {
        parts[0]@
    } else {
        joined(parts.drop_last()) + seq![' '] + parts.last()@
    }
}

/// Joins `parts` with single spaces.
pub fn join_with_spaces(parts: &Vec<String>) -> (r: String)
    ensures
        r@ == joined(parts@),
{
    let mut out = String::from_str("");
    proof {
        reveal_strlit("");
        reveal_strlit(" ");
    }
    let n = parts.len();
    let mut i: usize = 0;
    while i < n
        invariant
            n == parts@.len(),
            i <= n,
            out@ == joined(parts@.subrange(0, i as int)),
        decreases n - i,
    {
        assert(parts@.subrange(0, i + 1).drop_last() =~= parts@.subrange(0, i as int));
        assert(parts@.subrange(0, i + 1).last() == parts@[i as int]);
        proof {
            reveal_strlit(" ");
        }
        assert(" "@ =~= seq![' ']);
        if i > 0 {
            out.append(" ");
        }
        out.append(parts[i].as_str());
        assert(out@ =~= joined(parts@.subrange(0, i + 1)));
        i += 1;
    }
    assert(parts@.subrange(0, n as int) =~= parts@);
    out
}

/// Decimal text of an optional id; empty when absent.
pub open spec fn optional_text(v: Option<u32>) -> Seq<char> {
    match v {
        Some(x) => decimal_of(x as nat),
        None => Seq::empty(),
    }
}

fn optional_decimal(v: Option<u32>) -> (r: String)
    ensures
        r@ == optional_text(v),
{
    proof {
        reveal_strlit("");
    }
    match v {
        Some(x) => decimal_text(x as u64),
        None => String::from_str(""),
    }
}

/// Kilobytes of a byte count, rounded down, followed by " KB".
pub open spec fn kilobytes_text(bytes: u64) -> Seq<char> {
    decimal_of((bytes / 1024) as nat) + " KB"@
}

/// CPU usage as a percentage with two decimals, from hundredths.
pub open spec fn usage_text(hundredths: u64) -> Seq<char> {
    let frac = (hundredths % 100) as nat;
    decimal_of((hundredths / 100) as nat) + "."@ + (if frac < 10 {
        "0"@
    } else {
        Seq::empty()
    }) + decimal_of(frac)
}

/// The name shown for a state.
pub open spec fn status_text(s: ProcessStatus) -> Seq<char> {
    match s {
        ProcessStatus::Running => "Running"@,
        ProcessStatus::Sleeping => "Sleeping"@,
        ProcessStatus::Idle => "Idle"@,
        ProcessStatus::Stopped => "Stopped"@,
        ProcessStatus::Zombie => "Zombie"@,
        ProcessStatus::Dead => "Dead"@,
        ProcessStatus::Unknown => "Unknown"@,
    }
}

impl ProcessStatus {
    /// The name shown for this state.
    pub fn label(&self) -> (r: &'static str)
        ensures
            r@ == status_text(*self),
    {
        match self {
            ProcessStatus::Running => "Running",
            ProcessStatus::Sleeping => "Sleeping",
            ProcessStatus::Idle => "Idle",
            ProcessStatus::Stopped => "Stopped",
            ProcessStatus::Zombie => "Zombie",
            ProcessStatus::Dead => "Dead",
            ProcessStatus::Unknown => "Unknown",
        }
    }
}

/// The labelled fields of a record, in display order.
pub open spec fn detail_rows(p: ProcessInfo) -> Seq<(Seq<char>, Seq<char>)> {
    seq![
        ("Name"@, p.name@),
        ("PID"@, decimal_of(p.pid as nat)),
        ("User ID"@, optional_text(p.owner_id)),
        ("CMD"@, joined(p.command_line@)),
        ("Environment"@, joined(p.environment_variables@)),
        ("Memory"@, kilobytes_text(p.resident_memory_bytes)),
        ("Virtual Memory"@, kilobytes_text(p.virtual_memory_bytes)),
        ("Parent"@, optional_text(p.parent_pid)),
        ("Status"@, status_text(p.status)),
        ("Start Time"@, decimal_of(p.start_time_unix as nat)),
        ("Run Time"@, decimal_of(p.run_time_seconds as nat)),
        ("CPU Usage"@, usage_text(p.cpu_usage_hundredths)),
    ]
}

fn usage_string(hundredths: u64) -> (r: String)
    ensures
        r@ == usage_text(hundredths),
{
    proof {
        reveal_strlit(".");
        reveal_strlit("0");
    }
    let whole = decimal_text(hundredths / 100);
    let frac: u64 = hundredths % 100;
    let with_point = whole.concat(".");
    let padded = if frac < 10 {
        with_point.concat("0")
    } else {
        with_point
    };
    let digits = decimal_text(frac);
    let r = padded.concat(digits.as_str());
    assert(r@ =~= usage_text(hundredths));
    r
}

fn kilobytes_string(bytes: u64) -> (r: String)
    ensures
        r@ == kilobytes_text(bytes),
{
    decimal_text(bytes / 1024).concat(" KB")
}

impl ProcessInfo {
    /// The record's fields as labelled text, in display order.
    pub fn expand(&self) -> (r: IndexMap<String, String>)
        ensures
            index_map_entries(r) == detail_rows(*self),
    {
        proof {
            reveal_strlit("Name");
            reveal_strlit("PID");
            reveal_strlit("User ID");
            reveal_strlit("CMD");
            reveal_strlit("Environment");
            reveal_strlit("Memory");
            reveal_strlit("Virtual Memory");
            reveal_strlit("Parent");
            reveal_strlit("Status");
            reveal_strlit("Start Time");
            reveal_strlit("Run Time");
            reveal_strlit("CPU Usage");
        }
        let ghost rows = detail_rows(*self);
        assert(rows[0].0 == "Name"@ && "Name"@.len() == 4 && "Name"@[0] == 'N');
        assert(rows[1].0 == "PID"@ && "PID"@.len() == 3 && "PID"@[0] == 'P');
        assert(rows[2].0 == "User ID"@ && "User ID"@.len() == 7 && "User ID"@[0] == 'U');
        assert(rows[3].0 == "CMD"@ && "CMD"@.len() == 3 && "CMD"@[0] == 'C');
        assert(rows[4].0 == "Environment"@ && "Environment"@.len() == 11 && "Environment"@[0] == 'E');
        assert(rows[5].0 == "Memory"@ && "Memory"@.len() == 6 && "Memory"@[0] == 'M');
        assert(rows[6].0 == "Virtual Memory"@ && "Virtual Memory"@.len() == 14 && "Virtual Memory"@[0] == 'V');
        assert(rows[7].0 == "Parent"@ && "Parent"@.len() == 6 && "Parent"@[0] == 'P');
        assert(rows[8].0 == "Status"@ && "Status"@.len() == 6 && "Status"@[0] == 'S');
        assert(rows[9].0 == "Start Time"@ && "Start Time"@.len() == 10 && "Start Time"@[0] == 'S');
        assert(rows[10].0 == "Run Time"@ && "Run Time"@.len() == 8 && "Run Time"@[0] == 'R');
        assert(rows[11].0 == "CPU Usage"@ && "CPU Usage"@.len() == 9 && "CPU Usage"@[0] == 'C');
        let mut m = empty_map();
        assert(index_map_entries(m) =~= rows.subrange(0, 0));
        map_insert(&mut m, String::from_str("Name"), String::from_str(self.name.as_str()));
        assert(index_map_entries(m) =~= rows.subrange(0, 1));
        map_insert(&mut m, String::from_str("PID"), decimal_text(self.pid as u64));
        assert(index_map_entries(m) =~= rows.subrange(0, 2));
        map_insert(&mut m, String::from_str("User ID"), optional_decimal(self.owner_id));
        assert(index_map_entries(m) =~= rows.subrange(0, 3));
        map_insert(&mut m, String::from_str("CMD"), join_with_spaces(&self.command_line));
        assert(index_map_entries(m) =~= rows.subrange(0, 4));
        map_insert(
            &mut m,
            String::from_str("Environment"),
            join_with_spaces(&self.environment_variables),
        );
        assert(index_map_entries(m) =~= rows.subrange(0, 5));
        map_insert(&mut m, String::from_str("Memory"), kilobytes_string(self.resident_memory_bytes));
        assert(index_map_entries(m) =~= rows.subrange(0, 6));
        map_insert(
            &mut m,
            String::from_str("Virtual Memory"),
            kilobytes_string(self.virtual_memory_bytes),
        );
        assert(index_map_entries(m) =~= rows.subrange(0, 7));
        map_insert(&mut m, String::from_str("Parent"), optional_decimal(self.parent_pid));
        assert(index_map_entries(m) =~= rows.subrange(0, 8));
        map_insert(&mut m, String::from_str("Status"), String::from_str(self.status.label()));
        assert(index_map_entries(m) =~= rows.subrange(0, 9));
        map_insert(&mut m, String::from_str("Start Time"), decimal_text(self.start_time_unix));
        assert(index_map_entries(m) =~= rows.subrange(0, 10));
        map_insert(&mut m, String::from_str("Run Time"), decimal_text(self.run_time_seconds));
        assert(index_map_entries(m) =~= rows.subrange(0, 11));
        map_insert(&mut m, String::from_str("CPU Usage"), usage_string(self.cpu_usage_hundredths));
        assert(index_map_entries(m) =~= rows.subrange(0, 12));
        assert(index_map_entries(m) =~= detail_rows(*self));
        m
    }
}

} // verus!
