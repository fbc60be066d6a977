//! Object Attribute Memory: 40 sprite descriptors and the per-scanline
//! search for the first ten sprites that touch a line.

use vstd::prelude::*;

verus! {

/// One sprite descriptor: screen position (offset by 8/16), tile index and
/// attribute flags.
#[derive(Clone, Copy, PartialEq, Eq, Structural, Debug)]
pub struct Entry {
    pub ypos: u8,
    pub xpos: u8,
    pub tile: u8,
    pub flags: u8,
}

/// Whether a sprite of height `h` touches scanline `ly`. `ypos` is offset
/// by 16, so a sprite at `ypos == 16` starts at the top of the screen.
pub open spec fn covers_line(e: Entry, ly: int, h: int) -> bool {
    e.ypos - 16 <= ly < e.ypos - 16 + h
}

/// Indices of the sprites among the first `n` that touch `ly`, capped at
/// ten, in index order.
pub open spec fn spec_search(entries: Seq<Entry>, ly: int, h: int, n: int) -> Seq<u8>
    decreases n,
{
    if n <= 0 {
        Seq::empty()
    } else {
        let prev = spec_search(entries, ly, h, n - 1);
        if prev.len() < 10 && covers_line(entries[n - 1], ly, h) {
            prev.push((n - 1) as u8)
        } else {
            prev
        }
    }
}

/// The sprite table.
pub struct Oam {
    pub entries: Vec<Entry>,
    pub visible: Vec<u8>,
}

impl Oam {
    pub open spec fn wf(&self) -> bool {
        self.entries@.len() == 40
    }

    pub fn default() -> (o: Oam)
        ensures
            o.wf(),
            forall|i: int|
                0 <= i < 40 ==> o.entries@[i] == (Entry { ypos: 0, xpos: 0, tile: 0, flags: 0 }),
            o.visible@ == Seq::<u8>::empty(),
    {
        let mut entries: Vec<Entry> = Vec::new();
        let mut i: usize = 0;
        while i < 40
            invariant
                i <= 40,
                entries@.len() == i,
                forall|j: int|
                    0 <= j < i ==> entries@[j] == (Entry { ypos: 0, xpos: 0, tile: 0, flags: 0 }),
            decreases 40 - i,
        {
            entries.push(Entry { ypos: 0, xpos: 0, tile: 0, flags: 0 });
            i = i + 1;
        }
        Oam { entries, visible: Vec::new() }
    }

    /// Borrow sprite `i`.
    pub fn get(&self, i: usize) -> (e: &Entry)
        requires
            self.wf(),
            i < 40,
        ensures
            *e == self.entries@[i as int],
    {
        &self.entries[i]
    }

    /// The byte a bus read of `0xfe00 + off` returns.
    pub open spec fn byte_at(&self, addr: u16) -> u8 {
        let e = self.entries@[(addr - 0xfe00) / 4];
        let f = (addr - 0xfe00) % 4;
        if f == 0 {
            e.ypos
        } else if f == 1 {
            e.xpos
        } else if f == 2 {
            e.tile
        } else {
            e.flags
        }
    }

    pub fn read(&self, addr: u16) -> (r: u8)
        requires
            self.wf(),
            0xfe00 <= addr <= 0xfe9f,
        ensures
            r == self.byte_at(addr),
    {
        let off = (addr - 0xfe00) as usize;
        let e = &self.entries[off / 4];
        match off % 4 {
            0 => e.ypos,
            1 => e.xpos,
            2 => e.tile,
            _ => e.flags,
        }
    }

    /// Sprite table after a bus write of `data` at `addr`.
    pub open spec fn spec_written(&self, addr: u16, data: u8) -> Seq<Entry> {
        let i = (addr - 0xfe00) / 4;
        let f = (addr - 0xfe00) % 4;
        let e = self.entries@[i];
        let e2 = if f == 0 {
            Entry { ypos: data, ..e }
        } else if f == 1 {
            Entry { xpos: data, ..e }
        } else if f == 2 {
            Entry { tile: data, ..e }
        } else {
            Entry { flags: data, ..e }
        };
        self.entries@.update(i, e2)
    }

    pub fn write(&mut self, addr: u16, data: u8)
        requires
            old(self).wf(),
            0xfe00 <= addr <= 0xfe9f,
        ensures
            final(self).wf(),
            final(self).entries@ == old(self).spec_written(addr, data),
            final(self).visible == old(self).visible,
    {
        let off = (addr - 0xfe00) as usize;
        let i = off / 4;
        match off % 4 {
            0 => self.entries[i].ypos = data,
            1 => self.entries[i].xpos = data,
            2 => self.entries[i].tile = data,
            _ => self.entries[i].flags = data,
        }
    }

    /// Record the sprites visible on line `ly`: the first ten, in index
    /// order, whose vertical span touches the line.
    pub fn search(&mut self, ly: u8, h: u8)
        requires
            old(self).wf(),
        ensures
            final(self).wf(),
            final(self).entries == old(self).entries,
            final(self).visible@ == spec_search(old(self).entries@, ly as int, h as int, 40),
    {
        let mut visible: Vec<u8> = Vec::new();
        let mut i: usize = 0;
        while i < 40
            invariant
                self.wf(),
                i <= 40,
                visible@ == spec_search(self.entries@, ly as int, h as int, i as int),
            decreases 40 - i,
        {
            let e = self.entries[i];
            let top = e.ypos as i32 - 16;
            if visible.len() < 10 && top <= ly as i32 && (ly as i32) < top + h as i32 {
                visible.push(i as u8);
            }
            i = i + 1;
        }
        self.visible = visible;
    }
}

} // verus!
