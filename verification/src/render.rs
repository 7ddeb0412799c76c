//! Rendering decisions: the full-area layout, and the bordered panel that
//! shows the latest memory sample as its decimal string. Painting itself is
//! left to the drawing surface outside the library; this module decides what
//! is painted where.

use vstd::prelude::*;
use vstd::string::StringExecFns;

use crate::app::{fold_spec, App};
use crate::event::Event;

verus! {

/// A rectangular region of the terminal, in cells.
#[derive(Clone, Copy, Debug, PartialEq, Eq, Structural)]
pub struct Rect {
    pub x: u16,
    pub y: u16,
    pub width: u16,
    pub height: u16,
}

/// What one render tick paints: a bordered, titled panel with a text body,
/// covering the given region.
#[derive(Debug)]
pub struct Panel {
    pub title: String,
    pub content: String,
    pub area: Rect,
}

/// The title every metric panel carries.
pub open spec fn panel_title() -> Seq<char> {
    "Memory Info"@
}

/// The character for one decimal digit.
pub open spec fn digit_char(d: nat) -> char {
    if d == 0 {
        '0'
    } else if d == 1 {
        '1'
    } else if d == 2 {
        '2'
    } else if d == 3 {
        '3'
    } else if d == 4 {
        '4'
    } else if d == 5 {
        '5'
    } else if d == 6 {
        '6'
    } else if d == 7 {
        '7'
    } else if d == 8 {
        '8'
    } else {
        '9'
    }
}

/// The decimal representation of a number, most significant digit first, with
/// no leading zeros (a single '0' for zero).
pub open spec fn decimal_digits(n: nat) -> Seq<char>
    decreases n,
{
    if n < 10 {
        seq![digit_char(n)]
    } else {
        decimal_digits(n / 10).push(digit_char(n % 10))
    }
}

/// Append the character of one digit to the string.
fn push_digit(s: &mut String, d: u64)
    requires
        d < 10,
    ensures
        final(s)@ == old(s)@.push(digit_char(d as nat)),
{
    if d == 0 {
        proof {
            reveal_strlit("0");
        }
        s.append("0");
        proof {
            assert(s@ =~= old(s)@.push('0'));
        }
    } else if d == 1 {
        proof {
            reveal_strlit("1");
        }
        s.append("1");
        proof {
            assert(s@ =~= old(s)@.push('1'));
        }
    } else if d == 2 {
        proof {
            reveal_strlit("2");
        }
        s.append("2");
        proof {
            assert(s@ =~= old(s)@.push('2'));
        }
    } else if d == 3 {
        proof {
            reveal_strlit("3");
        }
        s.append("3");
        proof {
            assert(s@ =~= old(s)@.push('3'));
        }
    } else if d == 4 {
        proof {
            reveal_strlit("4");
        }
        s.append("4");
        proof {
            assert(s@ =~= old(s)@.push('4'));
        }
    } else if d == 5 {
        proof {
            reveal_strlit("5");
        }
        s.append("5");
        proof {
            assert(s@ =~= old(s)@.push('5'));
        }
    } else if d == 6 {
        proof {
            reveal_strlit("6");
        }
        s.append("6");
        proof {
            assert(s@ =~= old(s)@.push('6'));
        }
    } else if d == 7 {
        proof {
            reveal_strlit("7");
        }
        s.append("7");
        proof {
            assert(s@ =~= old(s)@.push('7'));
        }
    } else if d == 8 {
        proof {
            reveal_strlit("8");
        }
        s.append("8");
        proof {
            assert(s@ =~= old(s)@.push('8'));
        }
    } else {
        proof {
            reveal_strlit("9");
        }
        s.append("9");
        proof {
            assert(s@ =~= old(s)@.push('9'));
        }
    }
}

/// Append the decimal representation of `n` to the string.
fn write_decimal(s: &mut String, n: u64)
    ensures
        final(s)@ == old(s)@ + decimal_digits(n as nat),
    decreases n,
{
    if n >= 10 {
        write_decimal(s, n / 10);
        push_digit(s, n % 10);
        proof {
            assert(s@ =~= old(s)@ + decimal_digits(n as nat));
        }
    } else {
        push_digit(s, n);
        proof {
            assert(s@ =~= old(s)@ + decimal_digits(n as nat));
        }
    }
}

/// The decimal string of a memory sample.
pub fn u64_to_decimal(n: u64) -> (s: String)
    ensures
        s@ == decimal_digits(n as nat),
{
    let mut s = String::new();
    write_decimal(&mut s, n);
    proof {
        assert(s@ =~= decimal_digits(n as nat));
    }
    s
}

/// The layout: one vertical section spanning the whole available area.
pub fn layout_region(area: Rect) -> (r: Rect)
    ensures
        r == area,
{
    area
}

impl App {
    /// Build the metric panel for one sample: the fixed title, the sample's
    /// decimal string, over the given region.
    pub fn render_memory(&self, mem: u64, area: Rect) -> (p: Panel)
        ensures
            p.title@ == panel_title(),
            p.content@ == decimal_digits(mem as nat),
            p.area == area,
    {
        Panel { title: String::from_str("Memory Info"), content: u64_to_decimal(mem), area }
    }

    /// One render tick: fold the drained batch into the state, lay out the
    /// full area, and decide what to paint — the metric panel when a sample
    /// has arrived, nothing otherwise.
    pub fn render(&mut self, events: &Vec<Event>, area: Rect) -> (p: Option<Panel>)
        ensures
            *final(self) == fold_spec(*old(self), events@),
            final(self).latest_mem is None ==> p is None,
            final(self).latest_mem matches Some(v) ==> (p matches Some(panel) && panel.title@
                == panel_title() && panel.content@ == decimal_digits(v as nat) && panel.area
                == area),
    {
        self.apply_events(events);
        let region = layout_region(area);
        match self.latest_mem {
            None => None,
            Some(mem) => Some(self.render_memory(mem, region)),
        }
    }
}

} // verus!
