//! The whole computer as its host drives it: a number of instructions for
//! every frame of the display, the decision when the picture is drawn anew,
//! and the events of keyboard and mouse.

use crate::cpu::CPU;
use crate::interface_adapter::{AdapterView, KEYDOWN, KEYUP, MOUSE_LCLICK, MOUSE_RCLICK};
use crate::machine::{Draws, Fetched, Machine};
use crate::mapper::BusView;
use crate::ppu::{PpuView, PPU};
use vstd::prelude::*;

verus! {

/// The value of `update_each` that switches the regular redraw off.
pub const NEVER: u16 = 0xffff;

/// What a frame came to.
#[derive(Clone, Copy, Debug, PartialEq, Eq, Structural)]
pub enum Frame {
    /// Nothing was drawn.
    Idle,
    /// The text was drawn into the picture, but it is not yet time to show
    /// the picture.
    Rendered,
    /// The text was drawn into the picture, and the picture is to be shown.
    Presented,
    /// The processor came to an instruction that stores into the cartridge
    /// data slot. The frame ended in front of it.
    Fatal,
    /// The displayed memory holds a character whose glyph is missing. The
    /// instructions of the frame were executed; nothing was drawn.
    MissingGlyph,
}

/// A button of the mouse.
#[derive(Clone, Copy, Debug, PartialEq, Eq, Structural)]
pub enum MouseButton {
    Left,
    Right,
    Other,
}

/// What the computer holds, as plain values.
pub struct EmuView {
    pub update_each: u16,
    pub update_each_changed: u16,
    pub changed_cnt: u16,
    pub changed: bool,
    pub frame: u16,
    pub ticks: u32,
    pub cpu: Machine,
    pub ppu: PpuView,
}

impl EmuView {
    /// The computer after one instruction, fetched with `draws`, and the
    /// instruction. If the instruction leaves the display marked as changed,
    /// the mark is taken off and counted. An instruction that would store
    /// into the cartridge data slot is not executed: nothing changes, and
    /// there is `None` in place of the instruction.
    pub open spec fn tick(self, draws: Draws) -> (EmuView, Option<Fetched>) {
        let fetched = self.cpu.fetch(draws);
        let cpu = self.cpu.execute(fetched);
        if fetched.is_fatal() {
            (self, None)
        } else if cpu.bus.fbuf_changed {
            (
                EmuView {
                    cpu: Machine { bus: BusView { fbuf_changed: false, ..cpu.bus }, ..cpu },
                    changed_cnt: self.changed_cnt.wrapping_add(1),
                    changed: true,
                    ..self
                },
                Some(fetched),
            )
        } else {
            (EmuView { cpu, ..self }, Some(fetched))
        }
    }

    /// The computer after the instructions that are fetched with `draws`,
    /// one after the other, and whether it stopped in front of one that
    /// would store into the cartridge data slot. After that one no other is
    /// executed.
    pub open spec fn run(self, draws: Seq<Draws>) -> (EmuView, bool)
        decreases draws.len(),
    {
        if draws.len() == 0 {
            (self, false)
        } else {
            let (before, stopped) = self.run(draws.drop_last());
            if stopped {
                (before, true)
            } else {
                (before.tick(draws.last()).0, before.tick(draws.last()).1.is_none())
            }
        }
    }

    /// Whether `draws` can be all that the random source hands out during
    /// one frame: one set of draws for every instruction, and as many
    /// instructions as a frame has, or fewer if the run stops.
    pub open spec fn admits(self, draws: Seq<Draws>) -> bool {
        &&& draws.len() <= self.ticks
        &&& forall|i: int| 0 <= i < draws.len() ==> (#[trigger] draws[i]).valid()
        &&& draws.len() == self.ticks || self.run(draws).1
    }

    /// Whether the regular redraw is due in this frame.
    pub open spec fn redraw_is_due(self) -> bool {
        self.frame == self.update_each && self.update_each != NEVER
    }

    /// The computer after the end of a frame, and what the frame came to.
    ///
    /// The text is drawn if an instruction of the frame left the display
    /// marked as changed, or if the regular redraw is due, which also starts
    /// the frame count anew. The picture is to be shown if then at least
    /// `update_each_changed` marks have been counted; the count starts anew.
    /// If the text cannot be drawn for want of a glyph, nothing changes.
    pub open spec fn end_frame(self) -> (EmuView, Frame) {
        if !(self.changed || self.redraw_is_due()) {
            (EmuView { frame: self.frame.wrapping_add(1), ..self }, Frame::Idle)
        } else if !self.ppu.can_show(self.cpu.bus) {
            (self, Frame::MissingGlyph)
        } else {
            let present = self.changed_cnt >= self.update_each_changed;
            let shown = EmuView {
                cpu: Machine { bus: BusView { fbuf_changed: false, ..self.cpu.bus }, ..self.cpu },
                ppu: self.ppu.tick(self.cpu.bus),
                changed_cnt: if present {
                    0
                } else {
                    self.changed_cnt
                },
                changed: false,
                frame: if self.redraw_is_due() {
                    1
                } else {
                    self.frame.wrapping_add(1)
                },
                ..self
            };
            (
                shown,
                if present {
                    Frame::Presented
                } else {
                    Frame::Rendered
                },
            )
        }
    }

    /// The computer after a whole frame whose instructions are fetched with
    /// `draws`, and what the frame came to: the instructions, then the end
    /// of the frame; or only the instructions up to the one that stopped the
    /// run.
    pub open spec fn on_draw(self, draws: Seq<Draws>) -> (EmuView, Frame) {
        let (ran, stopped) = self.run(draws);
        if stopped {
            (ran, Frame::Fatal)
        } else {
            ran.end_frame()
        }
    }

    /// The computer after the keyboard reports `scancode` with the event
    /// `event`: both are put into the register bank, and an interrupt is
    /// requested.
    pub open spec fn key_event(self, scancode: u8, event: u8) -> EmuView {
        let int_adapter = AdapterView {
            keyb: scancode,
            interrupt_id: event,
            ..self.cpu.bus.int_adapter
        };
        let informed = Machine { bus: BusView { int_adapter, ..self.cpu.bus }, ..self.cpu };
        EmuView { cpu: informed.interrupt_request(), ..self }
    }

    /// The computer after the mouse moves to the character cell in column
    /// `x` and row `y`.
    pub open spec fn on_mouse_move(self, x: u8, y: u8) -> EmuView {
        let int_adapter = AdapterView { mouse_x: x, mouse_y: y, ..self.cpu.bus.int_adapter };
        EmuView { cpu: Machine { bus: BusView { int_adapter, ..self.cpu.bus }, ..self.cpu }, ..self }
    }

    /// The computer after a button of the mouse goes down: for the left and
    /// the right button the event is put into the interrupt latch; for every
    /// button an interrupt is requested.
    pub open spec fn on_mouse_button_down(self, button: MouseButton) -> EmuView {
        let latch = match button {
            MouseButton::Left => MOUSE_LCLICK,
            MouseButton::Right => MOUSE_RCLICK,
            MouseButton::Other => self.cpu.bus.int_adapter.interrupt_id,
        };
        let int_adapter = AdapterView { interrupt_id: latch, ..self.cpu.bus.int_adapter };
        let informed = Machine { bus: BusView { int_adapter, ..self.cpu.bus }, ..self.cpu };
        EmuView { cpu: informed.interrupt_request(), ..self }
    }
}

/// The computer: processor, bus and display, and the counters that decide
/// when the picture is drawn anew.
pub struct Emu {
    /// After so many frames the text is drawn even if nothing changed;
    /// `NEVER` switches that off.
    pub update_each: u16,
    /// The picture is shown when so many instructions have left the display
    /// marked as changed.
    pub update_each_changed: u16,
    /// How many instructions have done so since the picture was last shown.
    pub changed_cnt: u16,
    /// Whether an instruction has done so since the text was last drawn.
    pub changed: bool,
    /// The number of frames since the last regular redraw.
    pub frame: u16,
    /// The number of instructions in one frame.
    pub ticks: u32,
    pub cpu: CPU,
    pub ppu: PPU,
}

impl View for Emu {
    type V = EmuView;

    open spec fn view(&self) -> EmuView {
        EmuView {
            update_each: self.update_each,
            update_each_changed: self.update_each_changed,
            changed_cnt: self.changed_cnt,
            changed: self.changed,
            frame: self.frame,
            ticks: self.ticks,
            cpu: self.cpu@,
            ppu: self.ppu@,
        }
    }
}

impl Emu {
    /// A computer that has not run yet.
    pub fn new(cpu: CPU, ppu: PPU, ticks: u32, update_each: u16, update_each_changed: u16) -> (emu:
        Emu)
        ensures
            emu@ == (EmuView {
                update_each,
                update_each_changed,
                changed_cnt: 0,
                changed: false,
                frame: 0,
                ticks,
                cpu: cpu@,
                ppu: ppu@,
            }),
    {
        Emu {
            update_each,
            update_each_changed,
            changed_cnt: 0,
            changed: false,
            frame: 0,
            ticks,
            cpu,
            ppu,
        }
    }

    /// Fetches and executes one instruction, takes a mark of change off the
    /// display and counts it, and returns the instruction. An instruction
    /// that would store into the cartridge data slot is not executed: `None`
    /// is returned and nothing has changed.
    pub fn tick(&mut self) -> (executed: Option<Fetched>)
        ensures
            exists|draws: Draws|
                draws.valid() && (final(self)@, executed) == old(self)@.tick(draws),
    {
        let fetched = self.cpu.fetch();
        let ghost draws = choose|draws: Draws| draws.valid() && fetched == self.cpu@.fetch(draws);
        if fetched.is_fatal() {
            assert((self@, None::<Fetched>) == old(self)@.tick(draws));
            return None;
        }
        self.cpu.execute(fetched);
        if self.cpu.mapper.fbuf_changed {
            self.cpu.mapper.fbuf_changed = false;
            self.changed_cnt = self.changed_cnt.wrapping_add(1);
            self.changed = true;
        }
        assert((self@, Some(fetched)) == old(self)@.tick(draws));
        Some(fetched)
    }

    /// Ends a frame: draws the text if it is time to, and tells what the
    /// frame came to.
    pub fn end_frame(&mut self) -> (outcome: Frame)
        ensures
            (final(self)@, outcome) == old(self)@.end_frame(),
    {
        let due = self.frame == self.update_each && self.update_each != NEVER;
        if !(self.changed || due) {
            self.frame = self.frame.wrapping_add(1);
            return Frame::Idle;
        }
        if !self.ppu.can_show(&self.cpu.mapper) {
            return Frame::MissingGlyph;
        }
        self.ppu.tick(&self.cpu.mapper);
        let present = self.changed_cnt >= self.update_each_changed;
        if present {
            self.changed_cnt = 0;
        }
        self.changed = false;
        self.cpu.mapper.fbuf_changed = false;
        self.frame = if due {
            1
        } else {
            self.frame.wrapping_add(1)
        };
        if present {
            Frame::Presented
        } else {
            Frame::Rendered
        }
    }

    /// Runs one frame: executes the instructions of the frame and ends the
    /// frame. If the processor comes to an instruction that would store into
    /// the cartridge data slot, the frame stops in front of it.
    pub fn on_draw(&mut self) -> (outcome: Frame)
        ensures
            exists|draws: Seq<Draws>| #[trigger]
                old(self)@.admits(draws) && (final(self)@, outcome) == old(self)@.on_draw(draws),
    {
        let ghost mut done: Seq<Draws> = Seq::empty();
        let mut i: u32 = 0;
        while i < self.ticks
            invariant
                i <= self.ticks,
                self.ticks == old(self).ticks,
                done.len() == i,
                forall|k: int| 0 <= k < done.len() ==> (#[trigger] done[k]).valid(),
                old(self)@.run(done) == (self@, false),
            decreases self.ticks - i,
        {
            let ghost before = self@;
            let ghost so_far = done;
            let executed = self.tick();
            proof {
                let draws = choose|draws: Draws|
                    draws.valid() && (self@, executed) == before.tick(draws);
                done = so_far.push(draws);
                assert(done.drop_last() == so_far);
                assert(done.last() == draws);
            }
            if executed.is_none() {
                proof {
                    assert(old(self)@.admits(done));
                    assert((self@, Frame::Fatal) == old(self)@.on_draw(done));
                }
                return Frame::Fatal;
            }
            i += 1;
        }
        let outcome = self.end_frame();
        proof {
            assert(old(self)@.admits(done));
            assert((self@, outcome) == old(self)@.on_draw(done));
        }
        outcome
    }

    /// Takes a key that went down: puts its scancode and the event into the
    /// register bank and requests an interrupt.
    pub fn on_key_down(&mut self, scancode: u8)
        ensures
            final(self)@ == old(self)@.key_event(scancode, KEYDOWN),
    {
        self.cpu.mapper.int_adapter.keyb = scancode;
        self.cpu.mapper.int_adapter.interrupt_id = KEYDOWN;
        self.cpu.interrupt_request();
    }

    /// Takes a key that went up: puts its scancode and the event into the
    /// register bank and requests an interrupt.
    pub fn on_key_up(&mut self, scancode: u8)
        ensures
            final(self)@ == old(self)@.key_event(scancode, KEYUP),
    {
        self.cpu.mapper.int_adapter.keyb = scancode;
        self.cpu.mapper.int_adapter.interrupt_id = KEYUP;
        self.cpu.interrupt_request();
    }

    /// Takes a move of the mouse to the character cell in column `x` and row
    /// `y`.
    pub fn on_mouse_move(&mut self, x: u8, y: u8)
        ensures
            final(self)@ == old(self)@.on_mouse_move(x, y),
    {
        self.cpu.mapper.int_adapter.mouse_x = x;
        self.cpu.mapper.int_adapter.mouse_y = y;
    }

    /// Takes a button of the mouse that went down.
    pub fn on_mouse_button_down(&mut self, button: MouseButton)
        ensures
            final(self)@ == old(self)@.on_mouse_button_down(button),
    {
        match button {
            MouseButton::Left => self.cpu.mapper.int_adapter.interrupt_id = MOUSE_LCLICK,
            MouseButton::Right => self.cpu.mapper.int_adapter.interrupt_id = MOUSE_RCLICK,
            MouseButton::Other => {},
        }
        self.cpu.interrupt_request();
    }
}

} // verus!
