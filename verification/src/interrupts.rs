//! The interrupt descriptor table and the chained interrupt controllers.
//!
//! The descriptor table is modelled entry by entry (handler, privilege,
//! alternate-stack slot) and walks the one-way lifecycle unbuilt, built,
//! loaded, each transition taken exactly once at boot.  The controller pair
//! tracks its vector offsets and which of the two chips still owes an
//! end-of-interrupt acknowledgement; a chip that owes one delivers nothing
//! further.  The privileged instructions that hand either structure to the
//! hardware, and the port reads and writes behind them, stay outside the
//! library: the keyboard interrupt handler reads its byte and prints its
//! text there, and decides both through this crate (`match_scancode`,
//! `control_key_name`).

use vstd::prelude::*;

use crate::ps_2_scancodes::ControlKey;

verus! {

/// First vector of the primary controller: right above the 32 vectors the
/// CPU reserves for exceptions.
pub const PIC_1_OFFSET: u8 = 32;

/// First vector of the secondary controller, eight lines later.
pub const PIC_2_OFFSET: u8 = 40;

/// Vector of the timer tick.
pub const TIMER_INTERRUPT_ID: u8 = 32;

/// Vector of the keyboard interrupt.
pub const KEYBOARD_INTERRUPT_ID: u8 = 33;

/// How many vectors the descriptor table covers.
pub const NUM_VECTORS: usize = 256;

/// The vector of the double fault, the one entry that must survive a
/// corrupted stack.
pub const DOUBLE_FAULT_VECTOR: u8 = 8;

/// The handlers the boot code wires into the table.
#[derive(Clone, Copy, PartialEq, Eq, Structural, Debug)]
pub enum HandlerKind {
    DivideByZero,
    DebugTrap,
    NonMaskable,
    Breakpoint,
    Overflow,
    BoundRangeExceeded,
    InvalidOpcode,
    DeviceNotAvailable,
    DoubleFault,
    X87FloatingPoint,
    MachineCheck,
    SimdFloatingPoint,
    Virtualization,
    Timer,
    Keyboard,
}

/// One descriptor: the wired handler if any, the privilege level required to
/// invoke the vector from software, and the alternate-stack slot the CPU
/// switches to (zero means the default stack).  An unpopulated vector traps
/// to the CPU's own unhandled-fault behaviour rather than continuing.
#[derive(Clone, Copy, PartialEq, Debug)]
pub struct IdtEntry {
    pub handler: Option<HandlerKind>,
    pub privilege: u8,
    pub stack_index: u8,
}

/// The handler the boot code assigns to a vector, if any.
pub open spec fn vector_handler(vector: u8) -> Option<HandlerKind> {
    match vector {
        0 => Some(HandlerKind::DivideByZero),
        1 => Some(HandlerKind::DebugTrap),
        2 => Some(HandlerKind::NonMaskable),
        3 => Some(HandlerKind::Breakpoint),
        4 => Some(HandlerKind::Overflow),
        5 => Some(HandlerKind::BoundRangeExceeded),
        6 => Some(HandlerKind::InvalidOpcode),
        7 => Some(HandlerKind::DeviceNotAvailable),
        8 => Some(HandlerKind::DoubleFault),
        16 => Some(HandlerKind::X87FloatingPoint),
        18 => Some(HandlerKind::MachineCheck),
        19 => Some(HandlerKind::SimdFloatingPoint),
        20 => Some(HandlerKind::Virtualization),
        32 => Some(HandlerKind::Timer),
        33 => Some(HandlerKind::Keyboard),
        _ => None,
    }
}

/// The descriptor built for a vector.  Only the double fault runs on an
/// alternate stack; the hardware encodes slot `i` as `i + 1`, zero being
/// "keep the current stack", so the stored index is never zero.
pub open spec fn built_entry(vector: u8, double_fault_stack_index: u8) -> IdtEntry {
    IdtEntry {
        handler: vector_handler(vector),
        privilege: 0,
        stack_index: if vector == DOUBLE_FAULT_VECTOR {
            (double_fault_stack_index + 1) as u8
        } else {
            0
        },
    }
}

/// The whole table as built at boot.
pub open spec fn built_table(double_fault_stack_index: u8) -> Seq<IdtEntry> {
    Seq::new(NUM_VECTORS as nat, |v: int| built_entry(v as u8, double_fault_stack_index))
}

fn make_entry(vector: u8, double_fault_stack_index: u8) -> (e: IdtEntry)
    requires
        double_fault_stack_index < 7,
    ensures
        e == built_entry(vector, double_fault_stack_index),
{
    let handler = match vector {
        0 => Some(HandlerKind::DivideByZero),
        1 => Some(HandlerKind::DebugTrap),
        2 => Some(HandlerKind::NonMaskable),
        3 => Some(HandlerKind::Breakpoint),
        4 => Some(HandlerKind::Overflow),
        5 => Some(HandlerKind::BoundRangeExceeded),
        6 => Some(HandlerKind::InvalidOpcode),
        7 => Some(HandlerKind::DeviceNotAvailable),
        8 => Some(HandlerKind::DoubleFault),
        16 => Some(HandlerKind::X87FloatingPoint),
        18 => Some(HandlerKind::MachineCheck),
        19 => Some(HandlerKind::SimdFloatingPoint),
        20 => Some(HandlerKind::Virtualization),
        32 => Some(HandlerKind::Timer),
        33 => Some(HandlerKind::Keyboard),
        _ => None,
    };
    let stack_index = if vector == DOUBLE_FAULT_VECTOR {
        double_fault_stack_index + 1
    } else {
        0
    };
    IdtEntry { handler, privilege: 0, stack_index }
}

/// A built descriptor table, not yet handed to the CPU.
pub struct Idt {
    entries: Vec<IdtEntry>,
}

impl View for Idt {
    type V = Seq<IdtEntry>;

    closed spec fn view(&self) -> Seq<IdtEntry> {
        self.entries@
    }
}

impl Idt {
    /// Build the boot table: every supported exception vector gets its
    /// reporting handler, the timer and keyboard vectors get theirs, and the
    /// double-fault entry is marked to run on the alternate stack whose slot
    /// the segment/task-state setup supplies.
    pub fn build(double_fault_stack_index: u8) -> (t: Idt)
        requires
            double_fault_stack_index < 7,
        ensures
            t@ == built_table(double_fault_stack_index),
    {
        let mut entries: Vec<IdtEntry> = Vec::new();
        let mut v: usize = 0;
        while v < NUM_VECTORS
            invariant
                double_fault_stack_index < 7,
                v <= NUM_VECTORS,
                entries@.len() == v,
                forall|i: int|
                    0 <= i < v ==> entries@[i] == built_entry(i as u8, double_fault_stack_index),
            decreases NUM_VECTORS - v,
        {
            let e = make_entry(v as u8, double_fault_stack_index);
            entries.push(e);
            v = v + 1;
        }
        proof {
            assert(entries@ =~= built_table(double_fault_stack_index));
        }
        Idt { entries }
    }

    /// The descriptor at a vector.
    pub fn entry(&self, vector: u8) -> (e: IdtEntry)
        requires
            self@.len() == NUM_VECTORS,
        ensures
            e == self@[vector as int],
    {
        self.entries[vector as usize]
    }

    /// Hand the table to the CPU.  The table is consumed: once loaded it is
    /// immutable, the CPU reads it on every interrupt from here on, and
    /// there is no unload.
    pub fn load(self) -> (t: LoadedIdt)
        ensures
            t@ == self@,
    {
        LoadedIdt { table: self }
    }
}

/// A descriptor table the CPU has accepted: immutable for the rest of the
/// run.
pub struct LoadedIdt {
    table: Idt,
}

impl View for LoadedIdt {
    type V = Seq<IdtEntry>;

    closed spec fn view(&self) -> Seq<IdtEntry> {
        self.table@
    }
}

impl LoadedIdt {
    /// The descriptor at a vector.
    pub fn entry(&self, vector: u8) -> (e: IdtEntry)
        requires
            self@.len() == NUM_VECTORS,
        ensures
            e == self@[vector as int],
    {
        self.table.entry(vector)
    }
}

/// Build the boot descriptor table and hand it to the CPU, the two
/// transitions of the table's lifecycle in their only order.
pub fn init_idt(double_fault_stack_index: u8) -> (t: LoadedIdt)
    requires
        double_fault_stack_index < 7,
    ensures
        t@ == built_table(double_fault_stack_index),
{
    let table = Idt::build(double_fault_stack_index);
    table.load()
}

/// Law: however the table is built, the double-fault descriptor carries the
/// supplied alternate-stack slot in its non-zero hardware encoding, wired to
/// the double-fault handler, and no other vector leaves the default stack.
pub proof fn lemma_double_fault_stack(double_fault_stack_index: u8)
    requires
        double_fault_stack_index < 7,
    ensures
        built_table(double_fault_stack_index)[DOUBLE_FAULT_VECTOR as int].stack_index
            == double_fault_stack_index + 1,
        built_table(double_fault_stack_index)[DOUBLE_FAULT_VECTOR as int].stack_index != 0,
        built_table(double_fault_stack_index)[DOUBLE_FAULT_VECTOR as int].handler == Some(
            HandlerKind::DoubleFault,
        ),
        forall|v: int|
            0 <= v < NUM_VECTORS && v != DOUBLE_FAULT_VECTOR ==> (#[trigger] built_table(
                double_fault_stack_index,
            )[v]).stack_index == 0,
{
}

/// The two chained controllers: their vector offsets and which chips still
/// owe an end-of-interrupt acknowledgement.  A chip that owes one delivers
/// nothing further until it is acknowledged; on this single core only one
/// interrupt is serviced at a time, so one flag per chip suffices.
pub struct PicPair {
    pub primary_offset: u8,
    pub secondary_offset: u8,
    pub primary_in_service: bool,
    pub secondary_in_service: bool,
}

impl PicPair {
    /// The offsets are eight apart, clear of the 32 CPU-reserved vectors,
    /// and leave all sixteen lines addressable as vector numbers.
    pub open spec fn wf(self) -> bool {
        &&& self.primary_offset >= 32
        &&& self.secondary_offset == self.primary_offset + 8
        &&& self.primary_offset + 16 <= 256
    }

    /// The vectors this pair delivers.
    pub open spec fn handles_vector(self, vector: u8) -> bool {
        self.primary_offset <= vector < self.primary_offset + 16
    }

    /// Whether a vector belongs to the secondary chip.
    pub open spec fn on_secondary(self, vector: u8) -> bool {
        self.secondary_offset <= vector < self.secondary_offset + 8
    }

    /// Whether the pair would deliver `vector` right now.  A secondary
    /// vector travels through the primary's cascade line, so it needs both
    /// chips free.
    pub open spec fn accepts(self, vector: u8) -> bool {
        &&& self.handles_vector(vector)
        &&& !self.primary_in_service
        &&& (self.on_secondary(vector) ==> !self.secondary_in_service)
    }

    /// The pair after delivering `vector`: the owning chip now owes an
    /// acknowledgement, and for a secondary vector so does the primary,
    /// whose cascade line carried it.
    pub open spec fn after_dispatch(self, vector: u8) -> PicPair {
        PicPair {
            primary_in_service: true,
            secondary_in_service: self.secondary_in_service || self.on_secondary(vector),
            ..self
        }
    }

    /// The pair after acknowledging `vector`: the primary always receives
    /// the end-of-interrupt, the secondary only for its own vectors.
    pub open spec fn after_acknowledge(self, vector: u8) -> PicPair {
        PicPair {
            primary_in_service: false,
            secondary_in_service: !self.on_secondary(vector) && self.secondary_in_service,
            ..self
        }
    }

    /// A controller pair mapped at the given offsets, owing nothing.
    pub fn new(primary_offset: u8, secondary_offset: u8) -> (p: PicPair)
        requires
            primary_offset >= 32,
            secondary_offset == primary_offset + 8,
            primary_offset + 16 <= 256,
        ensures
            p.wf(),
            p.primary_offset == primary_offset,
            p.secondary_offset == secondary_offset,
            !p.primary_in_service,
            !p.secondary_in_service,
    {
        PicPair {
            primary_offset,
            secondary_offset,
            primary_in_service: false,
            secondary_in_service: false,
        }
    }

    /// Reprogram both chips to the given offsets.  The hardware sequence
    /// leaves no interrupt in service, and must be followed at once by
    /// loading the descriptor table: until then a stray interrupt has an
    /// undefined vector mapping.
    pub fn remap(&mut self, primary_offset: u8, secondary_offset: u8)
        requires
            primary_offset >= 32,
            secondary_offset == primary_offset + 8,
            primary_offset + 16 <= 256,
        ensures
            final(self).wf(),
            final(self).primary_offset == primary_offset,
            final(self).secondary_offset == secondary_offset,
            !final(self).primary_in_service,
            !final(self).secondary_in_service,
    {
        self.primary_offset = primary_offset;
        self.secondary_offset = secondary_offset;
        self.primary_in_service = false;
        self.secondary_in_service = false;
    }

    /// Deliver `vector` if the pair accepts it right now, recording the
    /// acknowledgement the handler then owes.
    pub fn dispatch(&mut self, vector: u8) -> (accepted: bool)
        ensures
            accepted == old(self).accepts(vector),
            accepted ==> *final(self) == old(self).after_dispatch(vector),
            !accepted ==> *final(self) == *old(self),
    {
        let handles = self.primary_offset <= vector && (vector as u16)
            < (self.primary_offset as u16) + 16;
        let on_secondary = self.secondary_offset <= vector && (vector as u16)
            < (self.secondary_offset as u16) + 8;
        if !handles || self.primary_in_service || (on_secondary && self.secondary_in_service) {
            return false;
        }
        self.primary_in_service = true;
        if on_secondary {
            self.secondary_in_service = true;
        }
        true
    }

    /// End-of-interrupt for `vector`: the primary chip is always told, the
    /// secondary for its own vectors.  Without this call after a delivery
    /// the pair stays silent; this is the required final step of every
    /// handler of a controller-routed vector, not optional cleanup.
    pub fn acknowledge(&mut self, vector: u8)
        requires
            old(self).handles_vector(vector),
        ensures
            *final(self) == old(self).after_acknowledge(vector),
    {
        let on_secondary = self.secondary_offset <= vector && (vector as u16)
            < (self.secondary_offset as u16) + 8;
        if on_secondary {
            self.secondary_in_service = false;
        }
        self.primary_in_service = false;
    }
}

/// Law: no acknowledge, no further dispatch.  Once the pair delivers a
/// vector it will not deliver it again before the acknowledgement, and after
/// the acknowledgement it will.
pub proof fn lemma_acknowledge_ordering(p: PicPair, vector: u8)
    requires
        p.wf(),
        p.accepts(vector),
    ensures
        !p.after_dispatch(vector).accepts(vector),
        p.after_dispatch(vector).after_acknowledge(vector).accepts(vector),
{
}

/// The text a decoded control key puts on the screen.
pub open spec fn control_key_text(key: ControlKey) -> Seq<char> {
    match key {
        ControlKey::Escape => "Escape"@,
        ControlKey::Backspace => "Backspace"@,
        ControlKey::Tab => "Tab"@,
        ControlKey::Enter => "Enter"@,
        ControlKey::LeftCtrl => "LeftCtrl"@,
        ControlKey::LeftShift => "LeftShift"@,
        ControlKey::RightShift => "RightShift"@,
        ControlKey::LeftAlt => "LeftAlt"@,
        ControlKey::CapsLock => "CapsLock"@,
        ControlKey::F1 => "F1"@,
        ControlKey::F2 => "F2"@,
        ControlKey::F3 => "F3"@,
        ControlKey::F4 => "F4"@,
        ControlKey::F5 => "F5"@,
        ControlKey::F6 => "F6"@,
        ControlKey::F7 => "F7"@,
        ControlKey::F8 => "F8"@,
        ControlKey::F9 => "F9"@,
        ControlKey::F10 => "F10"@,
        ControlKey::NumberLock => "NumberLock"@,
        ControlKey::ScrollLock => "ScrollLock"@,
        ControlKey::F11 => "F11"@,
        ControlKey::F12 => "F12"@,
        ControlKey::MultimediaPrevTrack => "Prev Track"@,
        ControlKey::MultimediaNextTrack => "Next Track"@,
        ControlKey::RightCtrl => "RightCtrl"@,
        ControlKey::MultimediaMute => "MultimediaMute"@,
        ControlKey::MultimediaCalculator => "MultimediaCalculator"@,
        ControlKey::MultimediaPlay => "MultimediaPlay"@,
        ControlKey::MultimediaStop => "MultimediaStop"@,
        ControlKey::MultimediaVolumeDown => "MultimediaVolumeDown"@,
        ControlKey::MultimediaVolumeUp => "MultimediaVolumeUp"@,
        ControlKey::MultimediaWWWHome => "MultimediaWWWHome"@,
        ControlKey::RightAlt => "RightAlt"@,
        ControlKey::Home => "Home"@,
        ControlKey::CursorUp => "CursorUp"@,
        ControlKey::PageUp => "PageUp"@,
        ControlKey::CursorLeft => "CursorLeft"@,
        ControlKey::CursorRight => "CursorRight"@,
        ControlKey::End => "End"@,
        ControlKey::CursorDown => "CursorDown"@,
        ControlKey::PageDown => "PageDown"@,
        ControlKey::Insert => "Insert"@,
        ControlKey::Delete => "Delete"@,
        ControlKey::LeftGUI => "LeftGUI"@,
        ControlKey::RightGUI => "RightGUI"@,
        ControlKey::Apps => "Apps"@,
        ControlKey::ACPIPower => "ACPIPower"@,
        ControlKey::ACPISleep => "ACPISleep"@,
        ControlKey::ACPIWake => "ACPIWake"@,
        ControlKey::MultimediaWWWSearch => "MultimediaWWWSearch"@,
        ControlKey::MultimediaWWWFavourites => "MultimediaWWWFavourites"@,
        ControlKey::MultimediaWWWRefresh => "MultimediaWWWRefresh"@,
        ControlKey::MultimediaWWWStop => "MultimediaWWWStop"@,
        ControlKey::MultimediaWWWForward => "MultimediaWWWForward"@,
        ControlKey::MultimediaWWWBack => "MultimediaWWWBack"@,
        ControlKey::MultimediaMyComputer => "MultimediaMyComputer"@,
        ControlKey::MultimediaEmail => "MultimediaEmail"@,
        ControlKey::MultimediaSelect => "MultimediaSelect"@,
        ControlKey::PrintScreen => "Print Screen"@,
    }
}

/// The name the keyboard handler prints for a control key.
pub fn control_key_name(key: &ControlKey) -> (name: &'static str)
    ensures
        name@ == control_key_text(*key),
{
    match key {
        ControlKey::Escape => "Escape",
        ControlKey::Backspace => "Backspace",
        ControlKey::Tab => "Tab",
        ControlKey::Enter => "Enter",
        ControlKey::LeftCtrl => "LeftCtrl",
        ControlKey::LeftShift => "LeftShift",
        ControlKey::RightShift => "RightShift",
        ControlKey::LeftAlt => "LeftAlt",
        ControlKey::CapsLock => "CapsLock",
        ControlKey::F1 => "F1",
        ControlKey::F2 => "F2",
        ControlKey::F3 => "F3",
        ControlKey::F4 => "F4",
        ControlKey::F5 => "F5",
        ControlKey::F6 => "F6",
        ControlKey::F7 => "F7",
        ControlKey::F8 => "F8",
        ControlKey::F9 => "F9",
        ControlKey::F10 => "F10",
        ControlKey::NumberLock => "NumberLock",
        ControlKey::ScrollLock => "ScrollLock",
        ControlKey::F11 => "F11",
        ControlKey::F12 => "F12",
        ControlKey::MultimediaPrevTrack => "Prev Track",
        ControlKey::MultimediaNextTrack => "Next Track",
        ControlKey::RightCtrl => "RightCtrl",
        ControlKey::MultimediaMute => "MultimediaMute",
        ControlKey::MultimediaCalculator => "MultimediaCalculator",
        ControlKey::MultimediaPlay => "MultimediaPlay",
        ControlKey::MultimediaStop => "MultimediaStop",
        ControlKey::MultimediaVolumeDown => "MultimediaVolumeDown",
        ControlKey::MultimediaVolumeUp => "MultimediaVolumeUp",
        ControlKey::MultimediaWWWHome => "MultimediaWWWHome",
        ControlKey::RightAlt => "RightAlt",
        ControlKey::Home => "Home",
        ControlKey::CursorUp => "CursorUp",
        ControlKey::PageUp => "PageUp",
        ControlKey::CursorLeft => "CursorLeft",
        ControlKey::CursorRight => "CursorRight",
        ControlKey::End => "End",
        ControlKey::CursorDown => "CursorDown",
        ControlKey::PageDown => "PageDown",
        ControlKey::Insert => "Insert",
        ControlKey::Delete => "Delete",
        ControlKey::LeftGUI => "LeftGUI",
        ControlKey::RightGUI => "RightGUI",
        ControlKey::Apps => "Apps",
        ControlKey::ACPIPower => "ACPIPower",
        ControlKey::ACPISleep => "ACPISleep",
        ControlKey::ACPIWake => "ACPIWake",
        ControlKey::MultimediaWWWSearch => "MultimediaWWWSearch",
        ControlKey::MultimediaWWWFavourites => "MultimediaWWWFavourites",
        ControlKey::MultimediaWWWRefresh => "MultimediaWWWRefresh",
        ControlKey::MultimediaWWWStop => "MultimediaWWWStop",
        ControlKey::MultimediaWWWForward => "MultimediaWWWForward",
        ControlKey::MultimediaWWWBack => "MultimediaWWWBack",
        ControlKey::MultimediaMyComputer => "MultimediaMyComputer",
        ControlKey::MultimediaEmail => "MultimediaEmail",
        ControlKey::MultimediaSelect => "MultimediaSelect",
        ControlKey::PrintScreen => "Print Screen",
    }
}

} // verus!
