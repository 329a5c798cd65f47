//! Version-gated field layouts.
//!
//! A request is a fixed list of slots. Each slot holds the text of one field
//! and a gate that says for which server versions the field is written. The
//! message for a server version is the texts of the slots whose gates admit
//! it, in the order of the list. The wire has no field names, so what a gated
//! slot does to the positions of the fields behind it is part of the
//! protocol; the laws at the end of this module state it.

use vstd::prelude::*;

use crate::fields::ToField;
use crate::messages::RequestMessage;

verus! {

/// For which server versions a field is written.
#[derive(Debug, Clone, Copy, PartialEq, Eq, Structural)]
pub enum Gate {
    /// For every version.
    Always,
    /// Only for versions below the threshold.
    Below(i32),
    /// Only for versions at or above the threshold.
    AtLeast(i32),
}

impl Gate {
    /// Whether a field behind this gate is written for `server_version`.
    pub open spec fn admits(self, server_version: int) -> bool {
        match self {
            Gate::Always => true,
            Gate::Below(threshold) => server_version < threshold,
            Gate::AtLeast(threshold) => server_version >= threshold,
        }
    }

    /// Whether a field behind this gate is written for `server_version`.
    pub fn allows(&self, server_version: i32) -> (admitted: bool)
        ensures
            admitted == self.admits(server_version as int),
    {
        match self {
            Gate::Always => true,
            Gate::Below(threshold) => server_version < *threshold,
            Gate::AtLeast(threshold) => server_version >= *threshold,
        }
    }
}

/// One field of a layout: its gate and its text.
pub struct Slot {
    pub gate: Gate,
    pub text: Seq<char>,
}

/// A slot that is written for every version.
pub open spec fn always(text: Seq<char>) -> Slot {
    Slot { gate: Gate::Always, text }
}

/// A slot that is written only below `threshold`.
pub open spec fn below(threshold: i32, text: Seq<char>) -> Slot {
    Slot { gate: Gate::Below(threshold), text }
}

/// A slot that is written only at or above `threshold`.
pub open spec fn at_least(threshold: i32, text: Seq<char>) -> Slot {
    Slot { gate: Gate::AtLeast(threshold), text }
}

/// The fields of the message that a layout gives for a server version.
pub open spec fn rendered(layout: Seq<Slot>, server_version: int) -> Seq<Seq<char>>
    decreases layout.len(),
{
    if layout.len() == 0 {
        Seq::empty()
    } else {
        let before = rendered(layout.drop_last(), server_version);
        if layout.last().gate.admits(server_version) {
            before.push(layout.last().text)
        } else {
            before
        }
    }
}

/// The index at which slot `k` of a layout stands in the message for a
/// server version, if the slot is written: the number of fields written
/// before it.
pub open spec fn position(layout: Seq<Slot>, k: int, server_version: int) -> int {
    rendered(layout.take(k), server_version).len() as int
}

/// The number of slots that are written for `to` but not for `from`.
pub open spec fn gained(layout: Seq<Slot>, from: int, to: int) -> int
    decreases layout.len(),
{
    if layout.len() == 0 {
        0
    } else {
        gained(layout.drop_last(), from, to) + if !layout.last().gate.admits(from)
            && layout.last().gate.admits(to) {
            1int
        } else {
            0int
        }
    }
}

/// Writes a request slot by slot for one server version, and keeps the
/// layout that it has been given so far.
pub struct GatedWriter {
    message: RequestMessage,
    server_version: i32,
    layout: Ghost<Seq<Slot>>,
}

impl GatedWriter {
    /// The slots given so far.
    pub closed spec fn layout(&self) -> Seq<Slot> {
        self.layout@
    }

    /// The server version that the request is written for.
    pub closed spec fn server_version(&self) -> i32 {
        self.server_version
    }

    /// The fields written so far.
    pub closed spec fn fields(&self) -> Seq<Seq<char>> {
        self.message@
    }

    /// The fields written are the rendering of the slots given.
    pub open spec fn well_formed(&self) -> bool {
        self.fields() == rendered(self.layout(), self.server_version() as int)
    }

    /// A writer for `server_version` that has been given no slot.
    pub fn new(server_version: i32) -> (writer: GatedWriter)
        ensures
            writer.well_formed(),
            writer.layout() == Seq::<Slot>::empty(),
            writer.server_version() == server_version,
    {
        let message = RequestMessage::new();
        assert(message@ =~= rendered(Seq::<Slot>::empty(), server_version as int));
        GatedWriter { message, server_version, layout: Ghost(Seq::empty()) }
    }

    /// Gives the writer its next slot: the field of `value` behind `gate`.
    /// The field goes into the message where `gate` admits the server
    /// version.
    pub fn put<T: ToField>(&mut self, gate: Gate, value: &T)
        requires
            old(self).well_formed(),
        ensures
            final(self).well_formed(),
            final(self).server_version() == old(self).server_version(),
            final(self).layout() == old(self).layout().push(
                (Slot { gate, text: value.field_text() }),
            ),
    {
        proof {
            let grown = self.layout@.push(Slot { gate, text: value.field_text() });
            assert(grown.drop_last() =~= self.layout@);
        }
        if gate.allows(self.server_version) {
            self.message.push_field(value);
        }
        self.layout = Ghost(self.layout@.push(Slot { gate, text: value.field_text() }));
    }

    /// The request: the rendering, for the server version, of the slots
    /// that the writer was given.
    pub fn finish(self) -> (message: RequestMessage)
        requires
            self.well_formed(),
        ensures
            message@ == rendered(self.layout(), self.server_version() as int),
    {
        self.message
    }
}

/// A layout of one slot renders as the text of the slot, or as nothing.
pub proof fn lemma_rendered_single(slot: Slot, server_version: int)
    ensures
        slot.gate.admits(server_version) ==> rendered(seq![slot], server_version) == seq![
            slot.text,
        ],
        !slot.gate.admits(server_version) ==> rendered(seq![slot], server_version)
            == Seq::<Seq<char>>::empty(),
{
    assert(seq![slot].drop_last() =~= Seq::<Slot>::empty());
    assert(rendered(Seq::<Slot>::empty(), server_version) =~= Seq::<Seq<char>>::empty());
    if slot.gate.admits(server_version) {
        assert(rendered(seq![slot], server_version) =~= seq![slot.text]);
    }
}

/// Rendering distributes over concatenation.
pub proof fn lemma_rendered_concat(front: Seq<Slot>, back: Seq<Slot>, server_version: int)
    ensures
        rendered(front + back, server_version) == rendered(front, server_version) + rendered(
            back,
            server_version,
        ),
    decreases back.len(),
{
    if back.len() == 0 {
        assert(front + back =~= front);
        assert(rendered(front, server_version) + rendered(back, server_version) =~= rendered(
            front,
            server_version,
        ));
    } else {
        lemma_rendered_concat(front, back.drop_last(), server_version);
        assert((front + back).drop_last() =~= front + back.drop_last());
        assert((front + back).last() == back.last());
        assert(rendered(front + back, server_version) =~= rendered(front, server_version)
            + rendered(back, server_version));
    }
}

/// A layout without gates renders, for every version, as all its texts.
pub proof fn lemma_ungated_renders_whole(layout: Seq<Slot>, server_version: int)
    requires
        forall|k: int| 0 <= k < layout.len() ==> (#[trigger] layout[k]).gate == Gate::Always,
    ensures
        rendered(layout, server_version) == Seq::new(layout.len(), |k: int| layout[k].text),
    decreases layout.len(),
{
    if layout.len() == 0 {
        assert(rendered(layout, server_version) =~= Seq::new(
            layout.len(),
            |k: int| layout[k].text,
        ));
    } else {
        let shorter = layout.drop_last();
        assert forall|k: int| 0 <= k < shorter.len() implies (#[trigger] shorter[k]).gate
            == Gate::Always by {
            assert(shorter[k] == layout[k]);
        }
        lemma_ungated_renders_whole(shorter, server_version);
        assert(layout.last() == layout[layout.len() - 1]);
        assert(rendered(layout, server_version) =~= Seq::new(
            layout.len(),
            |k: int| layout[k].text,
        ));
    }
}

/// A slot whose gate does not admit a version leaves no trace in the message
/// for that version: the message is that of the layout without the slot.
pub proof fn lemma_refused_slot_is_absent(layout: Seq<Slot>, k: int, server_version: int)
    requires
        0 <= k < layout.len(),
        !layout[k].gate.admits(server_version),
    ensures
        rendered(layout, server_version) == rendered(layout.remove(k), server_version),
{
    let front = layout.take(k);
    let back = layout.skip(k + 1);
    assert(layout =~= front + seq![layout[k]] + back);
    assert(layout.remove(k) =~= front + back);
    lemma_rendered_concat(front + seq![layout[k]], back, server_version);
    lemma_rendered_concat(front, seq![layout[k]], server_version);
    lemma_rendered_concat(front, back, server_version);
    lemma_rendered_single(layout[k], server_version);
    assert(rendered(front, server_version) + Seq::<Seq<char>>::empty() =~= rendered(
        front,
        server_version,
    ));
}

/// A slot whose gate admits a version is written, with its own text, at the
/// index that is the number of fields written before it.
pub proof fn lemma_admitted_slot_is_present(layout: Seq<Slot>, k: int, server_version: int)
    requires
        0 <= k < layout.len(),
        layout[k].gate.admits(server_version),
    ensures
        0 <= position(layout, k, server_version) < rendered(layout, server_version).len(),
        rendered(layout, server_version)[position(layout, k, server_version)] == layout[k].text,
{
    let front = layout.take(k);
    let back = layout.skip(k + 1);
    assert(layout =~= front + seq![layout[k]] + back);
    lemma_rendered_concat(front + seq![layout[k]], back, server_version);
    lemma_rendered_concat(front, seq![layout[k]], server_version);
    lemma_rendered_single(layout[k], server_version);
}

/// The number of fields written for one version differs from the number
/// written for another by the slots gained less the slots lost.
pub proof fn lemma_length_shift(layout: Seq<Slot>, from: int, to: int)
    ensures
        rendered(layout, to).len() - rendered(layout, from).len() == gained(layout, from, to)
            - gained(layout, to, from),
    decreases layout.len(),
{
    if layout.len() > 0 {
        lemma_length_shift(layout.drop_last(), from, to);
    }
}

/// Between two server versions, the index of a slot moves by exactly the
/// number of slots before it that the change of version adds, less the
/// number of slots before it that the change removes. Slots whose gates the
/// change does not cross do not count.
pub proof fn lemma_position_shift(layout: Seq<Slot>, k: int, from: int, to: int)
    requires
        0 <= k < layout.len(),
    ensures
        position(layout, k, to) - position(layout, k, from) == gained(layout.take(k), from, to)
            - gained(layout.take(k), to, from),
{
    lemma_length_shift(layout.take(k), from, to);
}

/// Version gating. Take two server versions, one below a threshold and one
/// at or above it. A field that the threshold brings in is absent from the
/// message for the lower version and present, with its text, in the message
/// for the higher one; a field that the threshold retires is present for the
/// lower and absent from the higher. A field that both versions carry keeps
/// its text, and its index moves by exactly the number of fields before it
/// that come in between the two versions, less the number that go out.
pub proof fn lemma_version_gating(
    layout: Seq<Slot>,
    k: int,
    threshold: i32,
    lower: int,
    higher: int,
)
    requires
        0 <= k < layout.len(),
        lower < threshold <= higher,
    ensures
        layout[k].gate == Gate::AtLeast(threshold) ==> rendered(layout, lower) == rendered(
            layout.remove(k),
            lower,
        ),
        layout[k].gate == Gate::AtLeast(threshold) ==> rendered(layout, higher)[position(
            layout,
            k,
            higher,
        )] == layout[k].text,
        layout[k].gate == Gate::Below(threshold) ==> rendered(layout, higher) == rendered(
            layout.remove(k),
            higher,
        ),
        layout[k].gate == Gate::Below(threshold) ==> rendered(layout, lower)[position(
            layout,
            k,
            lower,
        )] == layout[k].text,
        layout[k].gate.admits(lower) && layout[k].gate.admits(higher) ==> rendered(
            layout,
            lower,
        )[position(layout, k, lower)] == layout[k].text,
        layout[k].gate.admits(lower) && layout[k].gate.admits(higher) ==> rendered(
            layout,
            higher,
        )[position(layout, k, higher)] == layout[k].text,
        position(layout, k, higher) - position(layout, k, lower) == gained(
            layout.take(k),
            lower,
            higher,
        ) - gained(layout.take(k), higher, lower),
{
    if layout[k].gate.admits(lower) {
        lemma_admitted_slot_is_present(layout, k, lower);
    } else {
        lemma_refused_slot_is_absent(layout, k, lower);
    }
    if layout[k].gate.admits(higher) {
        lemma_admitted_slot_is_present(layout, k, higher);
    } else {
        lemma_refused_slot_is_absent(layout, k, higher);
    }
    lemma_position_shift(layout, k, lower, higher);
}

/// Where two server versions pass the same gates of a layout, the two
/// messages are the same.
pub proof fn lemma_same_gates_same_message(layout: Seq<Slot>, from: int, to: int)
    requires
        forall|k: int|
            0 <= k < layout.len() ==> layout[k].gate.admits(from) == (
            #[trigger] layout[k]).gate.admits(to),
    ensures
        rendered(layout, from) == rendered(layout, to),
    decreases layout.len(),
{
    if layout.len() > 0 {
        let shorter = layout.drop_last();
        assert forall|k: int| 0 <= k < shorter.len() implies shorter[k].gate.admits(from) == (
        #[trigger] shorter[k]).gate.admits(to) by {
            assert(shorter[k] == layout[k]);
        }
        lemma_same_gates_same_message(shorter, from, to);
        assert(layout.last() == layout[layout.len() - 1]);
    }
}

/// A gate lets one of two versions pass and not the other exactly when its
/// threshold lies above the lower and not above the higher of the two.
pub proof fn lemma_gate_crossed(gate: Gate, lower: int, higher: int)
    requires
        lower <= higher,
    ensures
        gate matches Gate::AtLeast(threshold) ==> (!gate.admits(lower) && gate.admits(higher)
            <==> lower < threshold <= higher),
        gate matches Gate::Below(threshold) ==> (gate.admits(lower) && !gate.admits(higher)
            <==> lower < threshold <= higher),
        gate is AtLeast ==> !(gate.admits(lower) && !gate.admits(higher)),
        gate is Below ==> !(!gate.admits(lower) && gate.admits(higher)),
        gate is Always ==> gate.admits(lower) && gate.admits(higher),
{
}

} // verus!
