//! The layout allocator: a pure function from the terminal area, the
//! visibility flags and the content-presence flags to the eight named
//! pane rectangles. Fixed bands keep their requested sizes while space
//! lasts; the primary content band takes the rest; flexible panes share
//! the middle band equally or collapse to zero width when hidden. A
//! degenerate area degrades to empty rectangles and never fails.

use vstd::prelude::*;

verus! {

/// One rectangular sub-region of the terminal, in cells.
#[derive(Clone, Copy, Debug, PartialEq, Eq, Structural)]
pub struct Rect {
    pub x: u16,
    pub y: u16,
    pub width: u16,
    pub height: u16,
}

impl Rect {
    /// A rectangle stays addressable: its far edges fit the cell grid.
    pub open spec fn wf(self) -> bool {
        &&& self.x + self.width <= u16::MAX
        &&& self.y + self.height <= u16::MAX
    }
}

/// The eight named pane rectangles of one frame, derived fresh from the
/// terminal area every time.
#[derive(Clone, Copy, Debug, PartialEq, Eq, Structural)]
pub struct WidgetAreas {
    pub op_stack: Rect,
    pub type_hint: Rect,
    pub program: Rect,
    pub call_stack: Rect,
    pub sponge: Rect,
    pub public_input: Rect,
    pub secret_input: Rect,
    pub message_box: Rect,
}

/// `req` cells, or all that is available when less than `req` remains.
pub open spec fn capped(req: int, avail: int) -> int {
    if req <= avail {
        req
    } else if avail >= 0 {
        avail
    } else {
        0
    }
}

/// The fixed height of the public-input band: two rows when there is
/// public input to show, nothing otherwise.
pub open spec fn input_band_request(show: bool) -> int {
    if show {
        2
    } else {
        0
    }
}

/// The width the sponge pane asks for: a full pane when visible, a
/// one-cell sliver otherwise so the border seam stays.
pub open spec fn sponge_request(sponge_visible: bool) -> int {
    if sponge_visible {
        32
    } else {
        1
    }
}

/// How many flexible panes share the middle band: the program pane
/// always, the type-hint and call-stack panes when visible.
pub open spec fn flexible_pane_count(type_hints: bool, call_stack: bool) -> int {
    1 + (if type_hints {
        1int
    } else {
        0int
    }) + (if call_stack {
        1int
    } else {
        0int
    })
}

/// The whole allocation, as plain arithmetic over the area. Vertically:
/// a primary content band filling what the two optional 2-row input
/// bands and the fixed 2-row message band leave. Horizontally inside the
/// content band: a 30-cell stack pane, the flexible middle, and the
/// sponge pane; the middle is shared equally by its visible panes, with
/// the program pane taking the remainder.
pub open spec fn layout_spec(
    area: Rect,
    type_hints: bool,
    call_stack: bool,
    sponge: bool,
    show_public: bool,
    show_secret: bool,
) -> WidgetAreas {
    let h = area.height as int;
    let w = area.width as int;
    let pub_req = input_band_request(show_public);
    let sec_req = input_band_request(show_secret);
    let fixed = pub_req + sec_req + 2;
    let fill_h = if h >= fixed {
        h - fixed
    } else {
        0
    };
    let pub_h = capped(pub_req, h - fill_h);
    let sec_h = capped(sec_req, h - fill_h - pub_h);
    let msg_h = capped(2, h - fill_h - pub_h - sec_h);
    let op_w = capped(30, w);
    let sp_w = capped(sponge_request(sponge), w - op_w);
    let mid_w = w - op_w - sp_w;
    let n = flexible_pane_count(type_hints, call_stack);
    let type_w = if type_hints {
        mid_w / n
    } else {
        0
    };
    let call_w = if call_stack {
        mid_w / n
    } else {
        0
    };
    let prog_w = mid_w - type_w - call_w;
    let x0 = area.x as int;
    let y0 = area.y as int;
    WidgetAreas {
        op_stack: Rect {
            x: x0 as u16,
            y: y0 as u16,
            width: op_w as u16,
            height: fill_h as u16,
        },
        type_hint: Rect {
            x: (x0 + op_w) as u16,
            y: y0 as u16,
            width: type_w as u16,
            height: fill_h as u16,
        },
        program: Rect {
            x: (x0 + op_w + type_w) as u16,
            y: y0 as u16,
            width: prog_w as u16,
            height: fill_h as u16,
        },
        call_stack: Rect {
            x: (x0 + op_w + type_w + prog_w) as u16,
            y: y0 as u16,
            width: call_w as u16,
            height: fill_h as u16,
        },
        sponge: Rect {
            x: (x0 + op_w + mid_w) as u16,
            y: y0 as u16,
            width: sp_w as u16,
            height: fill_h as u16,
        },
        public_input: Rect {
            x: x0 as u16,
            y: (y0 + fill_h) as u16,
            width: w as u16,
            height: pub_h as u16,
        },
        secret_input: Rect {
            x: x0 as u16,
            y: (y0 + fill_h + pub_h) as u16,
            width: w as u16,
            height: sec_h as u16,
        },
        message_box: Rect {
            x: x0 as u16,
            y: (y0 + fill_h + pub_h + sec_h) as u16,
            width: w as u16,
            height: msg_h as u16,
        },
    }
}

/// Partitions the area among the panes exactly as [`layout_spec`] says,
/// without failing on any area, the zero-sized ones included.
pub fn distribute_area(
    area: Rect,
    type_hints: bool,
    call_stack: bool,
    sponge: bool,
    show_public: bool,
    show_secret: bool,
) -> (areas: WidgetAreas)
    requires
        area.wf(),
    ensures
        areas == layout_spec(area, type_hints, call_stack, sponge, show_public, show_secret),
{
    let h = area.height;
    let w = area.width;
    let pub_req: u16 = if show_public {
        2
    } else {
        0
    };
    let sec_req: u16 = if show_secret {
        2
    } else {
        0
    };
    let fixed = pub_req + sec_req + 2;
    let fill_h = if h >= fixed {
        h - fixed
    } else {
        0
    };
    let pub_h = cap(pub_req, h - fill_h);
    let sec_h = cap(sec_req, h - fill_h - pub_h);
    let msg_h = cap(2, h - fill_h - pub_h - sec_h);
    let op_w = cap(30, w);
    let sp_req: u16 = if sponge {
        32
    } else {
        1
    };
    let sp_w = cap(sp_req, w - op_w);
    let mid_w = w - op_w - sp_w;
    let n: u16 = 1 + (if type_hints {
        1
    } else {
        0
    }) + (if call_stack {
        1
    } else {
        0
    });
    let type_w: u16 = if type_hints {
        mid_w / n
    } else {
        0
    };
    let call_w: u16 = if call_stack {
        mid_w / n
    } else {
        0
    };
    proof {
        assert(type_w + call_w <= mid_w) by {
            if type_hints && call_stack {
                assert(mid_w / 3 + mid_w / 3 <= mid_w);
            } else if type_hints || call_stack {
                assert(mid_w / 2 <= mid_w);
            }
        }
    }
    let prog_w = mid_w - type_w - call_w;
    WidgetAreas {
        op_stack: Rect { x: area.x, y: area.y, width: op_w, height: fill_h },
        type_hint: Rect { x: area.x + op_w, y: area.y, width: type_w, height: fill_h },
        program: Rect { x: area.x + op_w + type_w, y: area.y, width: prog_w, height: fill_h },
        call_stack: Rect {
            x: area.x + op_w + type_w + prog_w,
            y: area.y,
            width: call_w,
            height: fill_h,
        },
        sponge: Rect { x: area.x + op_w + mid_w, y: area.y, width: sp_w, height: fill_h },
        public_input: Rect { x: area.x, y: area.y + fill_h, width: w, height: pub_h },
        secret_input: Rect { x: area.x, y: area.y + fill_h + pub_h, width: w, height: sec_h },
        message_box: Rect {
            x: area.x,
            y: area.y + fill_h + pub_h + sec_h,
            width: w,
            height: msg_h,
        },
    }
}

/// `req` cells, or all that `avail` still offers.
fn cap(req: u16, avail: u16) -> (r: u16)
    ensures
        r as int == capped(req as int, avail as int),
{
    if req <= avail {
        req
    } else {
        avail
    }
}

/// The bands tile the area: the five content panes cover the content
/// band's width side by side, and the four vertical bands never outgrow
/// the area's height, covering it exactly whenever the fixed bands fit.
pub proof fn lemma_layout_partitions(
    area: Rect,
    type_hints: bool,
    call_stack: bool,
    sponge: bool,
    show_public: bool,
    show_secret: bool,
)
    requires
        area.wf(),
    ensures
        ({
            let a = layout_spec(area, type_hints, call_stack, sponge, show_public, show_secret);
            &&& a.op_stack.width + a.type_hint.width + a.program.width + a.call_stack.width
                + a.sponge.width == area.width
            &&& a.op_stack.height + a.public_input.height + a.secret_input.height
                + a.message_box.height <= area.height
            &&& area.height >= input_band_request(show_public) + input_band_request(show_secret)
                + 2 ==> a.op_stack.height + a.public_input.height + a.secret_input.height
                + a.message_box.height == area.height
        }),
{
    let w = area.width as int;
    let op_w = capped(30, w);
    let sp_w = capped(sponge_request(sponge), w - op_w);
    let mid_w = w - op_w - sp_w;
    assert(mid_w >= 0);
    if type_hints && call_stack {
        assert(mid_w / 3 + mid_w / 3 <= mid_w);
    } else if type_hints || call_stack {
        assert(mid_w / 2 <= mid_w);
    }
}

} // verus!
