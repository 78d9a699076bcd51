//! The status bar control and its part layout.
//!
//! A status bar is divided into parts.  A part either has a fixed pixel
//! width or shares the remaining width proportionally to its weight: with
//! fixed widths summing to `F`, weights summing to `P`, and a client width
//! `W`, every proportional part of weight `k` is `((W - F) / P) * k` pixels
//! wide (integer division), and the last part's right edge is the sentinel
//! `-1`, "up to the right edge", whatever the rounding left over.

use vstd::arithmetic::div_mod::lemma_fundamental_div_mod;
use vstd::arithmetic::mul::lemma_mul_inequality;
use vstd::arithmetic::mul::lemma_mul_is_commutative;
use vstd::arithmetic::mul::lemma_mul_is_distributive_add;
use vstd::arithmetic::mul::lemma_mul_nonnegative;
use vstd::prelude::*;

use crate::error::ErrorCode;
use crate::error::WinResult;
use crate::geometry::scale_len;
use crate::geometry::scaled;
use crate::geometry::Dpi;
use crate::geometry::Point;
use crate::geometry::Size;
use crate::handle::Handle;
use crate::lifecycle::Lifecycle;
use crate::msg::ResizeRequest;
use crate::msg::SizeParams;
use crate::styles::has_style;
use crate::styles::style_has;
use crate::styles::SBARS_SIZEGRIP;
use crate::styles::SBARS_TOOLTIPS;
use crate::styles::WS_CHILD;
use crate::styles::WS_EX_LEFT;
use crate::styles::WS_MAXIMIZEBOX;
use crate::styles::WS_SIZEBOX;
use crate::styles::WS_VISIBLE;
use crate::window::CreateRequest;
use crate::window::WindowBase;

verus! {

/// One part of a status bar.
#[derive(Clone, Copy, Debug, PartialEq, Eq, Structural)]
pub enum StatusBarPart {
    /// A part with a fixed width in pixels, scaled to the DPI at creation.
    Fixed(u32),
    /// A part that takes a share of the width the fixed parts leave free,
    /// proportional to its weight.
    Proportional(u8),
}

/// The pixels a part contributes to the fixed total.
pub open spec fn fixed_px(p: StatusBarPart) -> int {
    match p {
        StatusBarPart::Fixed(w) => w as int,
        StatusBarPart::Proportional(_) => 0,
    }
}

/// The weight a part contributes to the proportional total.
pub open spec fn weight(p: StatusBarPart) -> int {
    match p {
        StatusBarPart::Fixed(_) => 0,
        StatusBarPart::Proportional(k) => k as int,
    }
}

/// Whether a part is proportional.
pub open spec fn is_proportional(p: StatusBarPart) -> bool {
    p is Proportional
}

/// The fixed pixels of the parts from index `from` on.
pub open spec fn fixed_from(parts: Seq<StatusBarPart>, from: int) -> int
    decreases parts.len() - from,
{
    if 0 <= from < parts.len() {
        fixed_px(parts[from]) + fixed_from(parts, from + 1)
    } else {
        0
    }
}

/// The weights of the parts from index `from` on.
pub open spec fn weight_from(parts: Seq<StatusBarPart>, from: int) -> int
    decreases parts.len() - from,
{
    if 0 <= from < parts.len() {
        weight(parts[from]) + weight_from(parts, from + 1)
    } else {
        0
    }
}

/// The fixed pixels of all parts: `F`.
pub open spec fn fixed_sum(parts: Seq<StatusBarPart>) -> int {
    fixed_from(parts, 0)
}

/// The weights of all parts: `P`.
pub open spec fn weight_sum(parts: Seq<StatusBarPart>) -> int {
    weight_from(parts, 0)
}

/// Whether any part is proportional.
pub open spec fn has_proportional(parts: Seq<StatusBarPart>) -> bool {
    exists|i: int| 0 <= i < parts.len() && is_proportional(parts[i])
}

/// The width one proportional weight unit receives: `(W - F) / P`, or `0`
/// when there is no proportional part to receive anything.
pub open spec fn resize_unit(client_cx: int, parts: Seq<StatusBarPart>) -> int {
    if weight_sum(parts) > 0 {
        (client_cx - fixed_sum(parts)) / weight_sum(parts)
    } else {
        0
    }
}

/// The width of one part, given the unit width.
pub open spec fn part_width(p: StatusBarPart, unit: int) -> int {
    match p {
        StatusBarPart::Fixed(w) => w as int,
        StatusBarPart::Proportional(k) => unit * (k as int),
    }
}

/// The widths of the parts from index `from` on, given the unit width.
pub open spec fn width_from(parts: Seq<StatusBarPart>, unit: int, from: int) -> int
    decreases parts.len() - from,
{
    if 0 <= from < parts.len() {
        part_width(parts[from], unit) + width_from(parts, unit, from + 1)
    } else {
        0
    }
}

/// The widths of the parts before index `upto`, given the unit width.
pub open spec fn width_upto(parts: Seq<StatusBarPart>, unit: int, upto: int) -> int
    decreases upto,
{
    if 0 < upto <= parts.len() {
        width_upto(parts, unit, upto - 1) + part_width(parts[upto - 1], unit)
    } else {
        0
    }
}

/// The right edge of part `i`: the sentinel `-1` for the last part, else the
/// accumulated widths of parts `0` through `i`.  Whatever integer division
/// leaves over of the client width falls beyond the last formula edge and is
/// closed by the sentinel.
pub open spec fn right_edge_at(parts: Seq<StatusBarPart>, client_cx: int, i: int) -> int {
    if i == parts.len() - 1 {
        -1
    } else {
        width_upto(parts, resize_unit(client_cx, parts), i + 1)
    }
}

/// Fixed and weight suffix sums are never negative.
proof fn lemma_sums_nonneg(parts: Seq<StatusBarPart>, from: int)
    ensures
        fixed_from(parts, from) >= 0,
        weight_from(parts, from) >= 0,
    decreases parts.len() - from,
{
    if 0 <= from < parts.len() {
        lemma_sums_nonneg(parts, from + 1);
    }
}

/// A suffix sum never exceeds the whole sum.
proof fn lemma_suffix_le_sum(parts: Seq<StatusBarPart>, from: int)
    requires
        0 <= from <= parts.len(),
    ensures
        fixed_from(parts, from) <= fixed_sum(parts),
        weight_from(parts, from) <= weight_sum(parts),
    decreases from,
{
    if from > 0 {
        lemma_suffix_le_sum(parts, from - 1);
        lemma_sums_nonneg(parts, from);
    }
}

/// Part widths are nonnegative when the unit is.
proof fn lemma_part_width_nonneg(p: StatusBarPart, unit: int)
    requires
        unit >= 0,
    ensures
        part_width(p, unit) >= 0,
{
    match p {
        StatusBarPart::Fixed(_) => {},
        StatusBarPart::Proportional(k) => {
            lemma_mul_nonnegative(unit, k as int);
        },
    }
}

/// Width suffix sums are nonnegative when the unit is.
proof fn lemma_width_from_nonneg(parts: Seq<StatusBarPart>, unit: int, from: int)
    requires
        unit >= 0,
    ensures
        width_from(parts, unit, from) >= 0,
    decreases parts.len() - from,
{
    if 0 <= from < parts.len() {
        lemma_part_width_nonneg(parts[from], unit);
        lemma_width_from_nonneg(parts, unit, from + 1);
    }
}

/// The total width decomposes into the fixed total plus the unit times the
/// weight total.
proof fn lemma_width_decompose(parts: Seq<StatusBarPart>, unit: int, from: int)
    ensures
        width_from(parts, unit, from) == fixed_from(parts, from) + unit * weight_from(parts, from),
    decreases parts.len() - from,
{
    if 0 <= from < parts.len() {
        lemma_width_decompose(parts, unit, from + 1);
        lemma_mul_is_distributive_add(unit, weight(parts[from]), weight_from(parts, from + 1));
    }
}

/// A width prefix and the matching suffix split the width of all parts.
proof fn lemma_width_split(parts: Seq<StatusBarPart>, unit: int, k: int)
    requires
        0 <= k <= parts.len(),
    ensures
        width_upto(parts, unit, k) + width_from(parts, unit, k) == width_from(parts, unit, 0),
    decreases k,
{
    if k > 0 {
        lemma_width_split(parts, unit, k - 1);
    }
}

/// With the unit chosen as `(W - F) / P`, the parts together never exceed
/// the client width.
proof fn lemma_total_width_le_client(parts: Seq<StatusBarPart>, client_cx: int)
    requires
        fixed_sum(parts) <= client_cx,
    ensures
        width_from(parts, resize_unit(client_cx, parts), 0) <= client_cx,
{
    let p_total = weight_sum(parts);
    let f_total = fixed_sum(parts);
    let unit = resize_unit(client_cx, parts);
    lemma_sums_nonneg(parts, 0);
    lemma_width_decompose(parts, unit, 0);
    if p_total > 0 {
        lemma_fundamental_div_mod(client_cx - f_total, p_total);
        lemma_mul_is_commutative(unit, p_total);
    }
}

/// Computes the right edge of every part for the given client width, from
/// the left: each part's edge is the accumulated width through it, and the
/// last edge is the sentinel `-1`, closing the bar whatever the division
/// rounding left over.
#[verifier::loop_isolation(false)]
pub fn compute_right_edges(parts: &Vec<StatusBarPart>, client_cx: u32) -> (r: Vec<i32>)
    requires
        1 <= parts@.len(),
        client_cx <= i32::MAX,
        fixed_sum(parts@) <= client_cx,
        weight_sum(parts@) <= 255,
    ensures
        r@.len() == parts@.len(),
        forall|i: int| 0 <= i < parts@.len() ==> r@[i] == right_edge_at(
            parts@,
            client_cx as int,
            i,
        ),
{
    proof {
        lemma_sums_nonneg(parts@, 0);
    }
    let n = parts.len();

    // First pass: total the fixed pixels and the proportional weights.
    let mut total_weights: u8 = 0;
    let mut cx_available: u32 = client_cx;
    let mut i: usize = 0;
    while i < n
        invariant
            i <= n,
            total_weights == weight_sum(parts@) - weight_from(parts@, i as int),
            cx_available == client_cx - fixed_sum(parts@) + fixed_from(parts@, i as int),
        decreases n - i,
    {
        proof {
            lemma_sums_nonneg(parts@, i + 1);
            lemma_suffix_le_sum(parts@, i as int);
            lemma_suffix_le_sum(parts@, i + 1);
        }
        match parts[i] {
            StatusBarPart::Fixed(px) => {
                cx_available = cx_available - px;
            },
            StatusBarPart::Proportional(k) => {
                total_weights = total_weights + k;
            },
        }
        i += 1;
    }
    let ghost unit = resize_unit(client_cx as int, parts@);
    let unit_px: u32 = if total_weights > 0 {
        cx_available / (total_weights as u32)
    } else {
        0
    };
    proof {
        assert(unit_px == unit);
        lemma_sums_nonneg(parts@, 0);
        if weight_sum(parts@) > 0 {
            vstd::arithmetic::div_mod::lemma_div_pos_is_pos(
                client_cx - fixed_sum(parts@),
                weight_sum(parts@),
            );
        }
        lemma_total_width_le_client(parts@, client_cx as int);
    }

    // Second pass, from the left: accumulate each part's width; a part's
    // edge is the accumulated width through it.
    let mut r: Vec<i32> = Vec::new();
    let mut acc: u32 = 0;
    let mut idx: usize = 0;
    while idx < n
        invariant
            idx <= n,
            r@.len() == idx,
            unit_px == unit,
            unit >= 0,
            acc == width_upto(parts@, unit, idx as int),
            forall|j: int| 0 <= j < idx ==> r@[j] == width_upto(parts@, unit, j + 1),
        decreases n - idx,
    {
        proof {
            lemma_width_split(parts@, unit, idx as int);
            lemma_width_split(parts@, unit, idx + 1);
            lemma_width_from_nonneg(parts@, unit, idx as int);
            lemma_width_from_nonneg(parts@, unit, idx + 1);
            lemma_total_width_le_client(parts@, client_cx as int);
        }
        let w: u32 = match parts[idx] {
            StatusBarPart::Fixed(px) => px,
            StatusBarPart::Proportional(kw) => {
                proof {
                    lemma_sums_nonneg(parts@, idx + 1);
                    lemma_suffix_le_sum(parts@, idx as int);
                    lemma_mul_inequality(kw as int, weight_from(parts@, idx as int), unit);
                    lemma_mul_inequality(
                        weight_from(parts@, idx as int),
                        weight_sum(parts@),
                        unit,
                    );
                    if weight_sum(parts@) > 0 {
                        lemma_fundamental_div_mod(
                            client_cx - fixed_sum(parts@),
                            weight_sum(parts@),
                        );
                    }
                }
                ((unit_px as u64) * (kw as u64)) as u32
            },
        };
        acc = acc + w;
        r.push(acc as i32);
        idx += 1;
    }
    r.set(n - 1, -1);
    proof {
        assert forall|i2: int| 0 <= i2 < parts@.len() implies r@[i2] == right_edge_at(
            parts@,
            client_cx as int,
            i2,
        ) by {}
    }
    r
}

/// `p` with its fixed width scaled to `dpi`; proportional parts are
/// untouched, their weights are not pixel values.
pub open spec fn scaled_part(p: StatusBarPart, dpi: Dpi) -> StatusBarPart {
    match p {
        StatusBarPart::Fixed(w) => StatusBarPart::Fixed(scaled(w as int, dpi.x as int) as u32),
        StatusBarPart::Proportional(k) => StatusBarPart::Proportional(k),
    }
}

/// Every part of `parts` scaled to `dpi`.
pub open spec fn scaled_parts(parts: Seq<StatusBarPart>, dpi: Dpi) -> Seq<StatusBarPart> {
    Seq::new(parts.len(), |i: int| scaled_part(parts[i], dpi))
}

/// Scaling fixed widths leaves the weights untouched.
proof fn lemma_scaled_weights(parts: Seq<StatusBarPart>, dpi: Dpi, from: int)
    ensures
        weight_from(scaled_parts(parts, dpi), from) == weight_from(parts, from),
    decreases parts.len() - from,
{
    if 0 <= from < parts.len() {
        lemma_scaled_weights(parts, dpi, from + 1);
    }
}

/// Scaling fixed widths leaves proportionality untouched.
proof fn lemma_scaled_proportionality(parts: Seq<StatusBarPart>, dpi: Dpi)
    ensures
        has_proportional(scaled_parts(parts, dpi)) == has_proportional(parts),
{
    let s = scaled_parts(parts, dpi);
    assert forall|i: int| 0 <= i < parts.len() implies #[trigger] is_proportional(s[i])
        == is_proportional(parts[i]) by {}
    if has_proportional(parts) {
        let w = choose|i: int| 0 <= i < parts.len() && is_proportional(parts[i]);
        assert(is_proportional(s[w]));
    }
    if has_proportional(s) {
        let w = choose|i: int| 0 <= i < s.len() && is_proportional(s[i]);
        assert(is_proportional(parts[w]));
    }
}

/// The style bits a status bar is created with: a child window, visible,
/// with tooltips, and with a sizing grip exactly when the parent window is
/// resizable (it has a maximize button or a sizing border).
pub open spec fn status_bar_style(parent_style: u32) -> u32 {
    if has_style(parent_style, WS_MAXIMIZEBOX) || has_style(parent_style, WS_SIZEBOX) {
        WS_CHILD | WS_VISIBLE | SBARS_TOOLTIPS | SBARS_SIZEGRIP
    } else {
        WS_CHILD | WS_VISIBLE | SBARS_TOOLTIPS
    }
}

/// Everything the window system decided while a status bar materialized:
/// the DPI, the parent window's style and client size, and the handle the
/// creation call yielded (or the code it failed with).
pub struct StatusBarContext {
    /// The monitor's DPI, for scaling fixed part widths.
    pub dpi: Dpi,
    /// The parent window's style bits.
    pub parent_style: u32,
    /// The parent window's client area size.
    pub parent_client: Size,
    /// The handle the creation call yielded, or its failure code.
    pub created: WinResult<Handle>,
}

/// A native status bar control with one or more parts.
///
/// Built unbuilt, queued on its parent for deferred creation, materialized by
/// [`StatusBar::create`].  The part texts live in the control's model state.
pub struct StatusBar {
    /// The native handle; null until creation.
    pub hwnd: Handle,
    /// Where in its lifecycle the control is.
    pub state: Lifecycle,
    /// The control id allocated at construction.
    pub ctrl_id: u16,
    /// The parts, in order; fixed widths are DPI-scaled at creation.
    pub parts_info: Vec<StatusBarPart>,
    /// The right edge of each part, as last laid out.
    pub right_edges: Vec<i32>,
    /// The text of each part.
    pub texts: Vec<String>,
}

impl StatusBar {
    /// Well-formedness: at least one part and no more than fit a byte count,
    /// weights that fit the byte the layout accumulates them in, at least
    /// one weight unit when any part is proportional (the layout divides by
    /// the weight total), and one edge and one text per part.
    pub open spec fn wf(&self) -> bool {
        &&& 1 <= self.parts_info@.len() <= 255
        &&& self.right_edges@.len() == self.parts_info@.len()
        &&& self.texts@.len() == self.parts_info@.len()
        &&& weight_sum(self.parts_info@) <= 255
        &&& (has_proportional(self.parts_info@) ==> weight_sum(self.parts_info@) >= 1)
    }

    /// Builds a status bar with the given parts, queues it on the parent for
    /// deferred creation, and subscribes it to the parent's resize message,
    /// so that the parts are re-laid out whenever the parent's client area
    /// changes.
    ///
    /// Like all event and creation wiring, this belongs to build time: the
    /// parent must still be unbuilt.
    #[verifier::loop_isolation(false)]
    pub fn new<C: Copy>(parent: &mut WindowBase<C>, parts: &Vec<StatusBarPart>) -> (sb:
        StatusBar)
        requires
            old(parent).state == Lifecycle::Unbuilt,
            1 <= parts@.len() <= 255,
            weight_sum(parts@) <= 255,
            has_proportional(parts@) ==> weight_sum(parts@) >= 1,
        ensures
            sb.wf(),
            sb.state == Lifecycle::Unbuilt,
            sb.hwnd.raw == 0,
            sb.parts_info@ == parts@,
            sb.ctrl_id == old(parent).next_auto_id,
            forall|i: int| 0 <= i < parts@.len() ==> sb.texts@[i]@ == Seq::<char>::empty(),
            *final(parent) == (WindowBase {
                next_auto_id: final(parent).next_auto_id,
                pending_creations: final(parent).pending_creations,
                resize_subscribers: final(parent).resize_subscribers,
                ..*old(parent)
            }),
            final(parent).pending_creations@ == old(parent).pending_creations@.push(
                old(parent).next_auto_id,
            ),
            final(parent).resize_subscribers@ == old(parent).resize_subscribers@.push(
                old(parent).next_auto_id,
            ),
    {
        let ctrl_id = parent.alloc_ctrl_id();
        let reg = parent.note_pending_creation(ctrl_id);
        let sub = parent.note_resize_subscription(ctrl_id);
        proof {
            assert(reg is Ok);
            assert(sub is Ok);
        }
        let n = parts.len();
        let mut parts_info: Vec<StatusBarPart> = Vec::new();
        let mut right_edges: Vec<i32> = Vec::new();
        let mut texts: Vec<String> = Vec::new();
        let mut i: usize = 0;
        while i < n
            invariant
                i <= n,
                parts_info@ == parts@.take(i as int),
                right_edges@.len() == i,
                texts@.len() == i,
                forall|j: int| 0 <= j < i ==> texts@[j]@ == Seq::<char>::empty(),
            decreases n - i,
        {
            parts_info.push(parts[i]);
            right_edges.push(0);
            texts.push(String::new());
            proof {
                assert(parts@.take(i + 1) =~= parts@.take(i as int).push(parts@[i as int]));
            }
            i += 1;
        }
        proof {
            assert(parts@.take(n as int) =~= parts@);
        }
        StatusBar {
            hwnd: Handle::null(),
            state: Lifecycle::Unbuilt,
            ctrl_id,
            parts_info,
            right_edges,
            texts,
        }
    }

    /// Materializes the control: scales the fixed part widths to the DPI,
    /// asks for a child window of the status bar class (with a sizing grip
    /// exactly when the parent is resizable), and lays the parts out once
    /// against the parent's client width.
    ///
    /// Succeeds if and only if the context says the creation call did.  On
    /// failure nothing changes, so the materialization can be retried.
    #[verifier::loop_isolation(false)]
    pub fn create(&mut self, ctx: &StatusBarContext) -> (r: WinResult<CreateRequest>)
        requires
            old(self).wf(),
            old(self).state == Lifecycle::Unbuilt,
            ctx.created is Ok ==> forall|i: int| 0 <= i < old(self).parts_info@.len() ==> scaled(
                fixed_px(old(self).parts_info@[i]),
                ctx.dpi.x as int,
            ) <= u32::MAX,
            ctx.created is Ok ==> ctx.created->Ok_0.raw != 0 && ctx.parent_client.cx >= 0
                && fixed_sum(scaled_parts(old(self).parts_info@, ctx.dpi))
                <= ctx.parent_client.cx,
        ensures
            final(self).wf(),
            final(self).ctrl_id == old(self).ctrl_id,
            final(self).texts@ == old(self).texts@,
            ctx.created is Err ==> r == Err::<CreateRequest, ErrorCode>(ctx.created->Err_0)
                && *final(self) == *old(self),
            ctx.created is Ok ==> r is Ok && final(self).state == Lifecycle::Created
                && final(self).hwnd == ctx.created->Ok_0 && final(self).parts_info@
                == scaled_parts(old(self).parts_info@, ctx.dpi) && forall|i: int|
                0 <= i < final(self).parts_info@.len() ==> final(self).right_edges@[i]
                    == right_edge_at(
                    final(self).parts_info@,
                    ctx.parent_client.cx as int,
                    i,
                ),
            ctx.created is Ok ==> r->Ok_0.class_name@ == "msctls_statusbar32"@
                && r->Ok_0.style == status_bar_style(ctx.parent_style) && r->Ok_0.ctrl_id
                == old(self).ctrl_id && r->Ok_0.ex_style == WS_EX_LEFT,
    {
        match ctx.created {
            Err(e) => Err(e),
            Ok(h) => {
                let ghost orig = self.parts_info@;
                // Scale the fixed widths to the current DPI, in place.
                let n = self.parts_info.len();
                let mut i: usize = 0;
                while i < n
                    invariant
                        i <= n,
                        self.parts_info@.len() == n,
                        self.hwnd == old(self).hwnd,
                        self.state == old(self).state,
                        self.ctrl_id == old(self).ctrl_id,
                        self.right_edges@ == old(self).right_edges@,
                        self.texts@ == old(self).texts@,
                        forall|j: int| 0 <= j < i ==> self.parts_info@[j] == scaled_part(
                            orig[j],
                            ctx.dpi,
                        ),
                        forall|j: int| i <= j < n ==> self.parts_info@[j] == orig[j],
                    decreases n - i,
                {
                    match self.parts_info[i] {
                        StatusBarPart::Fixed(px) => {
                            let w = scale_len(px, ctx.dpi.x);
                            self.parts_info.set(i, StatusBarPart::Fixed(w));
                        },
                        StatusBarPart::Proportional(_) => {},
                    }
                    i += 1;
                }
                proof {
                    assert(self.parts_info@ =~= scaled_parts(orig, ctx.dpi));
                    lemma_scaled_weights(orig, ctx.dpi, 0);
                    lemma_scaled_proportionality(orig, ctx.dpi);
                }
                self.hwnd = h;
                self.state = Lifecycle::Created;
                let edges = compute_right_edges(&self.parts_info, ctx.parent_client.cx as u32);
                self.right_edges = edges;
                let resizable = style_has(ctx.parent_style, WS_MAXIMIZEBOX) || style_has(
                    ctx.parent_style,
                    WS_SIZEBOX,
                );
                let style: u32 = if resizable {
                    WS_CHILD | WS_VISIBLE | SBARS_TOOLTIPS | SBARS_SIZEGRIP
                } else {
                    WS_CHILD | WS_VISIBLE | SBARS_TOOLTIPS
                };
                Ok(
                    CreateRequest {
                        class_name: "msctls_statusbar32".to_owned(),
                        text: String::new(),
                        pos: Point { x: 0, y: 0 },
                        size: Size { cx: 0, cy: 0 },
                        ctrl_id: self.ctrl_id,
                        style,
                        ex_style: WS_EX_LEFT,
                    },
                )
            },
        }
    }

    /// Lays the parts out for a new client size.
    ///
    /// A minimized resize, or one arriving before the control exists, is a
    /// no-op, as the native control would treat it.  Otherwise every part's
    /// right edge is recomputed from the client width.
    pub fn resize(&mut self, p: &SizeParams)
        requires
            old(self).wf(),
            old(self).state == Lifecycle::Created && p.request != ResizeRequest::Minimized
                ==> p.client_area.cx >= 0 && fixed_sum(old(self).parts_info@)
                <= p.client_area.cx,
        ensures
            final(self).wf(),
            old(self).state != Lifecycle::Created || p.request == ResizeRequest::Minimized
                ==> *final(self) == *old(self),
            old(self).state == Lifecycle::Created && p.request != ResizeRequest::Minimized ==> (
            *final(self) == (StatusBar { right_edges: final(self).right_edges, ..*old(self) })
                && forall|i: int|
                0 <= i < old(self).parts_info@.len() ==> final(self).right_edges@[i]
                    == right_edge_at(old(self).parts_info@, p.client_area.cx as int, i)),
    {
        let minimized = match p.request {
            ResizeRequest::Minimized => true,
            _ => false,
        };
        let created = match self.state {
            Lifecycle::Created => true,
            _ => false,
        };
        if minimized || !created {
            return;
        }
        let edges = compute_right_edges(&self.parts_info, p.client_area.cx as u32);
        self.right_edges = edges;
    }

    /// Whether the fixed parts fit a client area `client_cx` wide: the
    /// condition the layout arithmetic needs.  Lets a caller test before
    /// asking for a re-layout.
    #[verifier::loop_isolation(false)]
    pub fn fits_client_width(&self, client_cx: i32) -> (r: bool)
        ensures
            r == (client_cx >= 0 && fixed_sum(self.parts_info@) <= client_cx),
    {
        if client_cx < 0 {
            return false;
        }
        let n = self.parts_info.len();
        let mut total: u64 = 0;
        let mut i: usize = 0;
        while i < n
            invariant
                i <= n,
                total == fixed_sum(self.parts_info@) - fixed_from(self.parts_info@, i as int),
                total <= 0x7fff_ffff,
            decreases n - i,
        {
            proof {
                lemma_sums_nonneg(self.parts_info@, i as int);
                lemma_sums_nonneg(self.parts_info@, i + 1);
            }
            match self.parts_info[i] {
                StatusBarPart::Fixed(px) => {
                    total = total + px as u64;
                },
                StatusBarPart::Proportional(_) => {},
            }
            i += 1;
            if total > 0x7fff_ffff {
                proof {
                    lemma_sums_nonneg(self.parts_info@, i as int);
                }
                return false;
            }
        }
        total <= client_cx as u64
    }

    /// The number of parts.
    pub fn part_count(&self) -> (n: u8)
        requires
            self.wf(),
            self.state == Lifecycle::Created,
        ensures
            n == self.parts_info@.len(),
    {
        self.parts_info.len() as u8
    }

    /// The text of part `part_index`, or the empty string for an index
    /// beyond the last part.
    pub fn part_text(&self, part_index: u8) -> (t: String)
        requires
            self.wf(),
            self.state == Lifecycle::Created,
        ensures
            part_index < self.parts_info@.len() ==> t@ == self.texts@[part_index as int]@,
            part_index >= self.parts_info@.len() ==> t@ == Seq::<char>::empty(),
    {
        if (part_index as usize) < self.texts.len() {
            self.texts[part_index as usize].clone()
        } else {
            String::new()
        }
    }

    /// Sets the text of part `part_index`.  Fails with the invalid-parameter
    /// code, and changes nothing, exactly when the index is beyond the last
    /// part.
    pub fn set_part_text(&mut self, part_index: u8, text: &str) -> (r: WinResult<()>)
        requires
            old(self).wf(),
            old(self).state == Lifecycle::Created,
        ensures
            final(self).wf(),
            *final(self) == (StatusBar { texts: final(self).texts, ..*old(self) }),
            part_index < old(self).parts_info@.len() ==> r == Ok::<(), ErrorCode>(())
                && final(self).texts@.len() == old(self).texts@.len()
                && final(self).texts@[part_index as int]@ == text@
                && (forall|j: int|
                    0 <= j < old(self).texts@.len() && j != part_index
                        ==> final(self).texts@[j] == old(self).texts@[j]),
            part_index >= old(self).parts_info@.len() ==> r == Err::<(), ErrorCode>(
                ErrorCode { code: crate::error::ERROR_INVALID_PARAMETER },
            ) && final(self).texts@ == old(self).texts@,
    {
        if (part_index as usize) < self.texts.len() {
            self.texts.set(part_index as usize, text.to_owned());
            Ok(())
        } else {
            Err(ErrorCode::new(crate::error::ERROR_INVALID_PARAMETER))
        }
    }
}

} // verus!
