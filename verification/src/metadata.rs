//! What the environment says about colour, and the cell that remembers it.

use vstd::prelude::*;

verus! {

/// The three signals that decide whether escape sequences are written.
#[derive(Clone, Copy, PartialEq, Eq, Debug)]
pub struct Capabilities {
    /// Colour has been asked to be left out.
    pub no_colour: bool,
    /// Colour has been asked for, wherever the output goes.
    pub force_colour: bool,
    /// The process is attached to an interactive terminal.
    pub is_terminal: bool,
}

impl Capabilities {
    /// Whether escape sequences are to be written: always where colour is
    /// forced, and otherwise only on a terminal where colour has not been
    /// turned off.
    pub open spec fn ansi_enabled(self) -> bool {
        self.force_colour || (self.is_terminal && !self.no_colour)
    }

    /// Whether escape sequences are to be written.
    pub fn emits_ansi(&self) -> (enabled: bool)
        ensures
            enabled == self.ansi_enabled(),
    {
        self.force_colour || !(self.no_colour || !self.is_terminal)
    }
}

/// The byte of a cell in which no snapshot is stored.
const UNINITIALISED: u8 = 0xff;

/// The bit that records `no_colour`.
const NO_COLOUR: u8 = 0b0010;

/// The bit that records `force_colour`.
const FORCE_COLOUR: u8 = 0b0100;

/// The bit that records `is_terminal`.
const IS_TERMINAL: u8 = 0b1000;

/// The bits that no stored snapshot ever sets.
const UNUSED: u8 = 0b1111_0001;

/// The byte that stands for one signal: its bit, or nothing.
spec fn signal(present: bool, bit: u8) -> u8 {
    if present {
        bit
    } else {
        0
    }
}

/// The byte in which a snapshot is stored.
spec fn packed(caps: Capabilities) -> u8 {
    signal(caps.no_colour, NO_COLOUR) | signal(caps.force_colour, FORCE_COLOUR) | signal(
        caps.is_terminal,
        IS_TERMINAL,
    )
}

/// The snapshot that a stored byte stands for.
spec fn unpacked(byte: u8) -> Capabilities {
    Capabilities {
        no_colour: byte & NO_COLOUR == NO_COLOUR,
        force_colour: byte & FORCE_COLOUR == FORCE_COLOUR,
        is_terminal: byte & IS_TERMINAL == IS_TERMINAL,
    }
}

/// Three signal bytes put together keep each signal readable, leave the
/// unused bits clear, and so never give the byte of an empty cell.
proof fn lemma_signal_bits(n: u8, f: u8, t: u8)
    by (bit_vector)
    requires
        n == 0 || n == 0b0010,
        f == 0 || f == 0b0100,
        t == 0 || t == 0b1000,
    ensures
        ((n | f | t) & 0b0010 == 0b0010) == (n == 0b0010),
        ((n | f | t) & 0b0100 == 0b0100) == (f == 0b0100),
        ((n | f | t) & 0b1000 == 0b1000) == (t == 0b1000),
        (n | f | t) & 0b1111_0001 == 0,
        (n | f | t) != 0xff,
{
}

/// Packing loses nothing, and a packed byte is never that of an empty cell.
proof fn lemma_packed(caps: Capabilities)
    ensures
        unpacked(packed(caps)) == caps,
        packed(caps) & UNUSED == 0,
        packed(caps) != UNINITIALISED,
{
    lemma_signal_bits(
        signal(caps.no_colour, NO_COLOUR),
        signal(caps.force_colour, FORCE_COLOUR),
        signal(caps.is_terminal, IS_TERMINAL),
    );
}

/// A cell that holds either nothing or one snapshot of the capabilities.
///
/// The snapshot is kept in one byte: a bit for each signal, and all bits
/// set while the cell is empty.
pub struct Metadata {
    cell: u8,
}

impl View for Metadata {
    type V = Option<Capabilities>;

    closed spec fn view(&self) -> Option<Capabilities> {
        if self.cell == UNINITIALISED {
            None
        } else {
            Some(unpacked(self.cell))
        }
    }
}

impl Metadata {
    #[verifier::type_invariant]
    spec fn well_formed(self) -> bool {
        self.cell == UNINITIALISED || self.cell & UNUSED == 0
    }

    /// What a query does to a cell: afterwards the cell holds the snapshot
    /// that was answered, and that is the one it held before, if it held
    /// one.
    pub open spec fn answered(
        before: Option<Capabilities>,
        after: Option<Capabilities>,
        caps: Capabilities,
    ) -> bool {
        &&& after == Some(caps)
        &&& before matches Some(cached) ==> caps == cached
    }

    /// An empty cell.
    pub fn new() -> (metadata: Self)
        ensures
            metadata@ is None,
    {
        Metadata { cell: UNINITIALISED }
    }

    /// The snapshot in the cell, if there is one.
    pub fn get(&self) -> (cached: Option<Capabilities>)
        ensures
            cached == self@,
    {
        let val = self.cell;
        if val == UNINITIALISED {
            None
        } else {
            Some(
                Capabilities {
                    no_colour: val & NO_COLOUR == NO_COLOUR,
                    force_colour: val & FORCE_COLOUR == FORCE_COLOUR,
                    is_terminal: val & IS_TERMINAL == IS_TERMINAL,
                },
            )
        }
    }

    /// Puts a snapshot into the cell, in place of what was there.
    pub fn store(&mut self, caps: Capabilities)
        ensures
            final(self)@ == Some(caps),
    {
        let mut compute: u8 = 0;
        if caps.no_colour {
            compute = compute | NO_COLOUR;
        }
        if caps.force_colour {
            compute = compute | FORCE_COLOUR;
        }
        if caps.is_terminal {
            compute = compute | IS_TERMINAL;
        }
        proof {
            assert(compute == packed(caps)) by {
                assert(forall|x: u8| #[trigger] (0u8 | x) == x) by (bit_vector);
                assert(forall|x: u8| #[trigger] (x | 0u8) == x) by (bit_vector);
            }
            lemma_packed(caps);
        }
        self.cell = compute;
    }

    /// Empties the cell.
    pub fn clear(&mut self)
        ensures
            final(self)@ is None,
    {
        self.cell = UNINITIALISED;
    }
}

/// Answers with the capabilities of this process: the snapshot in the cell
/// if it holds one, and otherwise what `probe` finds, which is stored for
/// the queries to come. The probe is called only where the cell is empty.
pub fn init_metadata<F: FnOnce() -> Capabilities>(metadata: &mut Metadata, probe: F) -> (caps:
    Capabilities)
    requires
        probe.requires(()),
    ensures
        Metadata::answered(old(metadata)@, final(metadata)@, caps),
        old(metadata)@ is None ==> probe.ensures((), caps),
{
    match metadata.get() {
        Some(cached) => cached,
        None => {
            let caps = probe();
            metadata.store(caps);
            caps
        },
    }
}

/// Throws away what the cell holds and stores what `probe` finds now.
pub fn flush_metadata<F: FnOnce() -> Capabilities>(metadata: &mut Metadata, probe: F)
    requires
        probe.requires(()),
    ensures
        final(metadata)@ matches Some(caps) && probe.ensures((), caps),
{
    metadata.clear();
    init_metadata(metadata, probe);
}

/// Queries that follow one another with no invalidation between them all
/// give the snapshot of the first, and the later ones leave the cell as it
/// is, whatever their probes would have found.
pub proof fn lemma_repeated_queries_agree(
    before: Option<Capabilities>,
    between: Option<Capabilities>,
    after: Option<Capabilities>,
    first: Capabilities,
    second: Capabilities,
)
    requires
        Metadata::answered(before, between, first),
        Metadata::answered(between, after, second),
    ensures
        second == first,
        after == between,
{
}

/// Where colour is forced, escape sequences are written, whatever the
/// other two signals say.
pub proof fn lemma_force_colour_wins(caps: Capabilities)
    requires
        caps.force_colour,
    ensures
        caps.ansi_enabled(),
{
}

} // verus!
