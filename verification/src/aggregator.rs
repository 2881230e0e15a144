//! The aggregator: keeps the latest chunk of every unit and renders the
//! periodic protocol line, in display order.
use vstd::prelude::*;
use vstd::string::StringExecFns;
use crate::machine::types::{Health, Render};
use crate::protocol::{chunk_to_json, spec_chunk_json, spec_padded, ChunkV, OutputChunk};
use crate::render::pango::{spec_pango, to_pango};
use crate::strutil::{push_char, push_spaces};

verus! {

/// The protocol header line, emitted once at startup.
pub const PROTOCOL_HEADER: &'static str = "{\"version\":1,\"click_events\":true}\n[";

/// Display order is the reverse of configuration order: the first configured
/// unit is rightmost on the bar.
pub fn i3bar_order(handles: &Vec<u64>) -> (r: Vec<u64>)
    ensures
        r@ == handles@.reverse(),
{
    let n = handles.len();
    let mut out: Vec<u64> = Vec::new();
    let mut i: usize = 0;
    while i < n
        invariant
            i <= n,
            n == handles@.len(),
            out@.len() == i,
            forall|j: int| 0 <= j < i ==> out@[j] == handles@[n - 1 - j],
        decreases n - i,
    {
        let v = handles[n - 1 - i];
        out.push(v);
        i = i + 1;
    }
    assert(out@ =~= handles@.reverse());
    out
}

/// The chunk published for one unit: its render's pango text padded on both
/// sides, under the unit's display name, with the border color that encodes
/// its health.
pub fn make_chunk(i3_name: &str, padding: i32, render: &Render) -> (c: OutputChunk)
    ensures
        c@.full_text == spec_padded(spec_pango(render@.0), padding as int),
        c@.name == i3_name@,
        c@.markup == "pango"@,
        c@.border == match render@.1 {
            Health::Good => crate::colors::DARK_GREY@,
            Health::Degraded => crate::colors::YELLOW@,
            Health::Error => crate::colors::RED@,
        },
        c@.separator == "false"@,
        c@.separator_block_width == 0,
        c@.background is None,
        c@.color is None,
{
    let pad: usize = if padding >= 0 {
        padding as usize
    } else {
        0
    };
    let mut full = String::new();
    push_spaces(&mut full, pad);
    let text = to_pango(&render.body);
    full.append(text.as_str());
    push_spaces(&mut full, pad);
    assert(full@ =~= spec_padded(spec_pango(render@.0), padding as int));
    let mut c = OutputChunk::new(i3_name, full);
    match render.health {
        Health::Good => {},
        Health::Degraded => {
            let mut b = String::new();
            b.append(crate::colors::YELLOW);
            c.border = b;
        },
        Health::Error => {
            let mut b = String::new();
            b.append(crate::colors::RED);
            c.border = b;
        },
    }
    c
}

/// The protocol line for a sequence of chunks: a JSON array of their
/// objects, comma-terminated, ending the line.
pub open spec fn spec_line(chunks: Seq<ChunkV>) -> Seq<char> {
    seq!['['] + spec_join_chunks(chunks) + seq![']', ',', '\n']
}

/// The chunk objects joined by commas.
pub open spec fn spec_join_chunks(chunks: Seq<ChunkV>) -> Seq<char>
    decreases chunks.len(),
{
    if chunks.len() == 0 {
        Seq::empty()
    } else if chunks.len() == 1 {
        spec_chunk_json(chunks[0])
    } else {
        spec_join_chunks(chunks.drop_last()) + seq![','] + spec_chunk_json(chunks.last())
    }
}

/// The aggregator's in-memory snapshot: one latest chunk per unit, held in
/// display order.
pub struct Aggregator {
    /// The units' handles, in display order.
    pub order: Vec<u64>,
    /// `latest[i]` is the last-known chunk of the unit with handle
    /// `order[i]`.
    pub latest: Vec<OutputChunk>,
}

/// The chunk views held, in display order.
pub open spec fn spec_latest(a: Aggregator) -> Seq<ChunkV> {
    Seq::new(a.latest@.len(), |i: int| a.latest@[i]@)
}

impl Aggregator {
    pub open spec fn wf(&self) -> bool {
        self.order@.len() == self.latest@.len()
    }

    /// A fresh snapshot from the units' initial chunks, given in
    /// configuration order; the aggregator keeps them in display order.
    pub fn new(handles: &Vec<u64>, initial: Vec<OutputChunk>) -> (a: Aggregator)
        requires
            handles@.len() == initial@.len(),
        ensures
            a.wf(),
            a.order@ == handles@.reverse(),
            spec_latest(a).len() == initial@.len(),
            forall|i: int|
                0 <= i < initial@.len() ==> spec_latest(a)[i] == initial@[initial@.len() - 1 - i]@,
    {
        let n = initial.len();
        let order = i3bar_order(handles);
        let mut latest: Vec<OutputChunk> = Vec::new();
        let mut items = initial;
        let mut i: usize = 0;
        while i < n
            invariant
                i <= n,
                n == items@.len(),
                latest@.len() == i,
                forall|j: int| 0 <= j < i ==> (#[trigger] latest@[j])@ == items@[n - 1 - j]@,
            decreases n - i,
        {
            let c = clone_chunk(&items[n - 1 - i]);
            latest.push(c);
            i = i + 1;
        }
        let a = Aggregator { order, latest };
        proof {
            assert forall|i: int| 0 <= i < n implies spec_latest(a)[i] == items@[n - 1 - i]@ by {
                assert(a.latest@[i]@ == items@[n - 1 - i]@);
            }
        }
        a
    }

    /// Replaces the latest chunk of the unit with this handle; any unit it
    /// does not know stays as it was, and so does every other unit.
    pub fn update(&mut self, handle: u64, chunk: OutputChunk) -> (found: bool)
        requires
            old(self).wf(),
        ensures
            final(self).wf(),
            final(self).order@ == old(self).order@,
            spec_latest(*final(self)).len() == spec_latest(*old(self)).len(),
            forall|i: int|
                0 <= i < old(self).order@.len() && old(self).order@[i] != handle
                    ==> spec_latest(*final(self))[i] == spec_latest(*old(self))[i],
            forall|i: int|
                0 <= i < old(self).order@.len() && old(self).order@[i] == handle ==> spec_latest(
                    *final(self),
                )[i] == chunk@ || spec_latest(*final(self))[i] == spec_latest(*old(self))[i],
            found == exists|i: int|
                0 <= i < old(self).order@.len() && old(self).order@[i] == handle,
            found ==> exists|i: int|
                0 <= i < old(self).order@.len() && old(self).order@[i] == handle && spec_latest(
                    *final(self),
                )[i] == chunk@,
    {
        let n = self.order.len();
        let mut i: usize = 0;
        while i < n
            invariant
                i <= n,
                n == self.order@.len(),
                *self == *old(self),
                self.wf(),
                forall|j: int| 0 <= j < i ==> self.order@[j] != handle,
            decreases n - i,
        {
            if self.order[i] == handle {
                let ghost pre = self.latest@;
                self.latest.set(i, chunk);
                proof {
                    assert(self.latest@ =~= pre.update(i as int, chunk));
                    assert(spec_latest(*final(self))[i as int] == chunk@);
                    assert forall|j: int| 0 <= j < n && j != i implies spec_latest(*final(self))[j]
                        == spec_latest(*old(self))[j] by {
                        assert(self.latest@[j] == pre[j]);
                    }
                }
                return true;
            }
            i = i + 1;
        }
        false
    }

    /// Renders the full protocol line: every unit's last-known chunk, in
    /// display order, as one comma-terminated JSON array.
    pub fn emit_line(&self) -> (r: String)
        requires
            self.wf(),
        ensures
            r@ == spec_line(spec_latest(*self)),
    {
        let n = self.latest.len();
        let mut out = String::new();
        push_char(&mut out, '[');
        let mut i: usize = 0;
        while i < n
            invariant
                i <= n,
                n == self.latest@.len(),
                out@ == seq!['['] + spec_join_chunks(spec_latest(*self).take(i as int)),
            decreases n - i,
        {
            if i > 0 {
                push_char(&mut out, ',');
            }
            let j = chunk_to_json(&self.latest[i]);
            out.append(j.as_str());
            proof {
                let pre = spec_latest(*self).take(i as int);
                let cur = spec_latest(*self).take(i + 1 as int);
                assert(cur.drop_last() =~= pre);
                assert(cur.last() == spec_latest(*self)[i as int]);
                assert(out@ =~= seq!['['] + spec_join_chunks(cur));
            }
            i = i + 1;
        }
        push_char(&mut out, ']');
        push_char(&mut out, ',');
        push_char(&mut out, '\n');
        proof {
            assert(spec_latest(*self).take(n as int) =~= spec_latest(*self));
            assert(out@ =~= spec_line(spec_latest(*self)));
        }
        out
    }
}

/// A field-for-field copy of a chunk.
pub fn clone_chunk(c: &OutputChunk) -> (r: OutputChunk)
    ensures
        r@ == c@,
{
    c.clone()
}

/// Duplicate handle rejection: handles must be unique for the process
/// lifetime; a duplicated handle is reported before any scheduling begins.
/// The result is `Err` with a duplicated handle exactly when two positions
/// share one, and `Ok` exactly when all handles are distinct.
pub fn check_unique_handles(handles: &Vec<u64>) -> (r: Result<(), u64>)
    ensures
        match r {
            Ok(()) => forall|i: int, j: int|
                0 <= i < j < handles@.len() ==> handles@[i] != handles@[j],
            Err(h) => exists|i: int, j: int|
                0 <= i < j < handles@.len() && handles@[i] == handles@[j] && handles@[j] == h,
        },
{
    let n = handles.len();
    let mut i: usize = 0;
    while i < n
        invariant
            i <= n,
            n == handles@.len(),
            forall|p: int, q: int| 0 <= p < q < i ==> handles@[p] != handles@[q],
        decreases n - i,
    {
        let mut j: usize = 0;
        while j < i
            invariant
                j <= i < n,
                n == handles@.len(),
                forall|p: int| 0 <= p < j ==> handles@[p] != handles@[i as int],
            decreases i - j,
        {
            if handles[j] == handles[i] {
                return Err(handles[i]);
            }
            j = j + 1;
        }
        i = i + 1;
    }
    Ok(())
}

} // verus!
