use vstd::prelude::*;
use vstd::multiset::Multiset;

use crate::codec::pixel_buffer_len;
use crate::shell::{continue_drag_decision, port_frame, query_continue_drag, query_drag_feedback,
    DragEvent, DragStatus, ShellPort, ShellPortView};

verus! {

broadcast use vstd::multiset::group_multiset_axioms, vstd::seq_lib::group_to_multiset_ensures;

/// One BGRA pixel of the simulated platform's icon rasterization.
#[derive(Clone, Copy, Debug, PartialEq, Eq, Structural)]
pub struct PixelBgra {
    pub b: u8,
    pub g: u8,
    pub r: u8,
    pub a: u8,
}

/// A simulated shell platform: every native operation is scripted, and every
/// acquisition and release is counted, so the resource discipline of the
/// operations built on [`ShellPort`] can be exercised and observed. The
/// platform rasterizes every icon as a checker of two configurable BGRA
/// pixels, alternating by pixel index.
pub struct SimShell {
    /// Whether the platform reports native shell support.
    pub native: bool,
    /// Whether an icon query succeeds.
    pub icon_available: bool,
    /// Whether a surface allocation succeeds (fault injection point).
    pub surface_available: bool,
    /// Whether the COM-style machinery initializes.
    pub com_available: bool,
    /// How many further path resolutions succeed before one fails.
    pub parse_budget: u32,
    /// Whether building the shell data object succeeds.
    pub data_object_available: bool,
    /// The pixel drawn at even pixel indices.
    pub even_pixel: PixelBgra,
    /// The pixel drawn at odd pixel indices.
    pub odd_pixel: PixelBgra,
    /// The events the native drag loop reports, in order; an exhausted
    /// script reads as the user abandoning the drag.
    pub drag_script: Vec<DragEvent>,
    /// How many scripted events have been consumed.
    pub script_pos: usize,
    /// The icon handles currently live.
    pub live_icons: Vec<u64>,
    /// The surface handles currently live.
    pub live_surfaces: Vec<u64>,
    /// The shell identifiers currently live.
    pub live_ids: Vec<u64>,
    /// The COM-style initialization depth.
    pub com_count: u32,
    /// The drop effects the last drag session offered to the OS.
    pub last_permitted_effects: u32,
    /// The composition of the most recently built data object.
    pub built_data_object: Ghost<Option<(u64, u64, Seq<u64>)>>,
    /// The most recent offer to the drag loop.
    pub drag_offer: Ghost<Option<(u64, u32)>>,
    /// Every successful path resolution, oldest first.
    pub parse_log: Ghost<Seq<(Seq<char>, u64)>>,
    /// How many resources have ever been acquired.
    pub acquired: u64,
    /// The next handle to hand out.
    pub next_handle: u64,
}

impl SimShell {
    /// The byte at offset `i` of this platform's rasterization: offsets are
    /// grouped four to a pixel in BGRA order, and pixels alternate between
    /// the two configured colors.
    pub open spec fn pattern_byte(&self, i: int) -> u8 {
        let px = if (i / 4) % 2 == 0 {
            self.even_pixel
        } else {
            self.odd_pixel
        };
        if i % 4 == 0 {
            px.b
        } else if i % 4 == 1 {
            px.g
        } else if i % 4 == 2 {
            px.r
        } else {
            px.a
        }
    }

    /// The remaining scripted drag events.
    pub open spec fn remaining_script(&self) -> Seq<DragEvent> {
        if self.script_pos <= self.drag_script@.len() {
            self.drag_script@.skip(self.script_pos as int)
        } else {
            Seq::empty()
        }
    }

    /// The outcome the continue-or-drop state machine assigns to a stream
    /// of events: the first resolving decision, or a cancellation when the
    /// stream runs out (the simulated user abandons the drag).
    pub open spec fn script_outcome(events: Seq<DragEvent>) -> DragStatus
        decreases events.len(),
    {
        if events.len() == 0 {
            DragStatus::Cancelled
        } else {
            let d = continue_drag_decision(events[0].escape_pressed, events[0].key_state);
            if d == DragStatus::Dragging {
                SimShell::script_outcome(events.drop_first())
            } else {
                d
            }
        }
    }

    /// Pumps the scripted events through the drag callback's two queries
    /// until one continue-or-drop decision resolves the session, exactly as
    /// the state machine prescribes.
    fn run_script(&mut self, permitted_effects: u32) -> (r: DragStatus)
        ensures
            final(self).native == old(self).native,
            final(self).even_pixel == old(self).even_pixel,
            final(self).odd_pixel == old(self).odd_pixel,
            final(self).live_icons == old(self).live_icons,
            final(self).live_surfaces == old(self).live_surfaces,
            final(self).live_ids == old(self).live_ids,
            final(self).com_count == old(self).com_count,
            final(self).acquired == old(self).acquired,
            final(self).built_data_object == old(self).built_data_object,
            final(self).drag_offer == old(self).drag_offer,
            final(self).parse_log == old(self).parse_log,
            r == SimShell::script_outcome(old(self).remaining_script()),
    {
        while self.script_pos < self.drag_script.len()
            invariant
                self.native == old(self).native,
                self.even_pixel == old(self).even_pixel,
                self.odd_pixel == old(self).odd_pixel,
                self.live_icons == old(self).live_icons,
                self.live_surfaces == old(self).live_surfaces,
                self.live_ids == old(self).live_ids,
                self.com_count == old(self).com_count,
                self.acquired == old(self).acquired,
                self.built_data_object == old(self).built_data_object,
                self.drag_offer == old(self).drag_offer,
                self.parse_log == old(self).parse_log,
                self.drag_script == old(self).drag_script,
                SimShell::script_outcome(old(self).remaining_script()) == SimShell::script_outcome(
                    self.remaining_script(),
                ),
            decreases self.drag_script@.len() - self.script_pos,
        {
            let ghost before = self.remaining_script();
            let ev = self.drag_script[self.script_pos];
            proof {
                assert(before.len() > 0);
                assert(before[0] == ev);
            }
            self.script_pos = self.script_pos + 1;
            proof {
                assert(self.remaining_script() =~= before.drop_first());
            }
            let _feedback = query_drag_feedback(permitted_effects);
            match query_continue_drag(ev.escape_pressed, ev.key_state) {
                DragStatus::Dragging => {},
                DragStatus::Dropped => {
                    return DragStatus::Dropped;
                },
                DragStatus::Cancelled => {
                    return DragStatus::Cancelled;
                },
            }
        }
        // An exhausted script reads as the user abandoning the drag.
        proof {
            assert(self.remaining_script().len() == 0);
        }
        DragStatus::Cancelled
    }

    /// A fresh simulated platform: native support on, every operation set
    /// to succeed, an opaque two-color icon, an empty drag script, and
    /// nothing acquired.
    pub fn new() -> (r: SimShell)
        ensures
            r.native_supported(),
            r.icons() == Multiset::<u64>::empty(),
            r.surfaces() == Multiset::<u64>::empty(),
            r.shell_ids() == Multiset::<u64>::empty(),
            r.com_depth() == 0,
            r.acquire_count() == 0,
    {
        let r = SimShell {
            native: true,
            icon_available: true,
            surface_available: true,
            com_available: true,
            parse_budget: u32::MAX,
            data_object_available: true,
            even_pixel: PixelBgra { b: 255, g: 64, r: 32, a: 255 },
            odd_pixel: PixelBgra { b: 16, g: 128, r: 224, a: 255 },
            drag_script: Vec::new(),
            script_pos: 0,
            live_icons: Vec::new(),
            live_surfaces: Vec::new(),
            live_ids: Vec::new(),
            com_count: 0,
            last_permitted_effects: 0,
            built_data_object: Ghost(None),
            drag_offer: Ghost(None),
            parse_log: Ghost(Seq::empty()),
            acquired: 0,
            next_handle: 1,
        };
        proof {
            assert(r.live_icons@.to_multiset() =~= Multiset::<u64>::empty());
            assert(r.live_surfaces@.to_multiset() =~= Multiset::<u64>::empty());
            assert(r.live_ids@.to_multiset() =~= Multiset::<u64>::empty());
        }
        r
    }

    /// How many of the platform's resources are live right now: icon and
    /// surface handles, shell identifiers, and COM-style initializations.
    pub fn live_resources(&self) -> (r: u64)
        requires
            self.icons().len() + self.surfaces().len() + self.shell_ids().len() + self.com_depth()
                <= u64::MAX,
        ensures
            r as nat == self.icons().len() + self.surfaces().len() + self.shell_ids().len()
                + self.com_depth(),
    {
        self.live_icons.len() as u64 + self.live_surfaces.len() as u64 + self.live_ids.len() as u64
            + self.com_count as u64
    }
}

/// No simulated operation changes the platform's support flag or its icon
/// colors, so the port frame holds whenever those fields carry over.
proof fn lemma_sim_frame(pre: SimShell, post: SimShell)
    requires
        post.native == pre.native,
        post.even_pixel == pre.even_pixel,
        post.odd_pixel == pre.odd_pixel,
    ensures
        port_frame(pre, post),
{
    assert forall|icon: u64, size: u32| #[trigger] post.rendered(icon, size) == pre.rendered(
        icon,
        size,
    ) by {
        assert(post.rendered(icon, size) =~= pre.rendered(icon, size));
    }
}

/// Removes one occurrence of a live handle from a handle list.
fn remove_live_handle(v: &mut Vec<u64>, h: u64)
    requires
        old(v)@.to_multiset().count(h) > 0,
    ensures
        final(v)@.to_multiset() == old(v)@.to_multiset().remove(h),
{
    proof {
        assert(old(v)@.contains(h));
    }
    let mut j: usize = 0;
    while j < v.len()
        invariant
            v@ == old(v)@,
            j <= v@.len(),
            forall|m: int| 0 <= m < j ==> v@[m] != h,
            v@.contains(h),
        decreases v@.len() - j,
    {
        if v[j] == h {
            v.remove(j);
            return ;
        }
        j = j + 1;
    }
    proof {
        let w = choose|i: int| 0 <= i < v@.len() && v@[i] == h;
        assert(v@[w] == h);
        assert(false);
    }
}

/// The state machine never leaves a script unresolved: its outcome is a
/// drop or a cancellation, never a session still in flight.
pub proof fn lemma_script_outcome_resolves(events: Seq<DragEvent>)
    ensures
        SimShell::script_outcome(events) == DragStatus::Dropped || SimShell::script_outcome(events)
            == DragStatus::Cancelled,
    decreases events.len(),
{
    if events.len() > 0 {
        let d = continue_drag_decision(events[0].escape_pressed, events[0].key_state);
        if d == DragStatus::Dragging {
            lemma_script_outcome_resolves(events.drop_first());
        }
    }
}

impl ShellPortView for SimShell {
    open spec fn native_supported(&self) -> bool {
        self.native
    }

    open spec fn icons(&self) -> Multiset<u64> {
        self.live_icons@.to_multiset()
    }

    open spec fn surfaces(&self) -> Multiset<u64> {
        self.live_surfaces@.to_multiset()
    }

    open spec fn shell_ids(&self) -> Multiset<u64> {
        self.live_ids@.to_multiset()
    }

    open spec fn com_depth(&self) -> nat {
        self.com_count as nat
    }

    open spec fn acquire_count(&self) -> nat {
        self.acquired as nat
    }

    open spec fn rendered(&self, icon: u64, size: u32) -> Seq<u8> {
        Seq::new(pixel_buffer_len(size), |i: int| self.pattern_byte(i))
    }

    open spec fn last_data_object(&self) -> Option<(u64, u64, Seq<u64>)> {
        self.built_data_object@
    }

    open spec fn last_drag_offer(&self) -> Option<(u64, u32)> {
        self.drag_offer@
    }

    open spec fn child_of(&self, full: u64) -> u64 {
        full
    }

    open spec fn parses(&self) -> Seq<(Seq<char>, u64)> {
        self.parse_log@
    }
}

impl ShellPort for SimShell {
    fn supports_native_shell(&self) -> (r: bool) {
        self.native
    }

    fn query_file_icon(&mut self, path: &String) -> (r: Option<u64>) {
        let _ = path;
        if !self.icon_available || self.acquired == u64::MAX || self.next_handle == u64::MAX {
            proof {
                lemma_sim_frame(*old(self), *self);
            }
            return None;
        }
        let h = self.next_handle;
        self.next_handle = self.next_handle + 1;
        self.live_icons.push(h);
        self.acquired = self.acquired + 1;
        proof {
            lemma_sim_frame(*old(self), *self);
        }
        Some(h)
    }

    fn release_icon(&mut self, icon: u64) {
        remove_live_handle(&mut self.live_icons, icon);
        proof {
            lemma_sim_frame(*old(self), *self);
        }
    }

    fn allocate_surface(&mut self, size: u32) -> (r: Option<u64>) {
        let _ = size;
        if !self.surface_available || self.acquired == u64::MAX || self.next_handle == u64::MAX {
            proof {
                lemma_sim_frame(*old(self), *self);
            }
            return None;
        }
        let h = self.next_handle;
        self.next_handle = self.next_handle + 1;
        self.live_surfaces.push(h);
        self.acquired = self.acquired + 1;
        proof {
            lemma_sim_frame(*old(self), *self);
        }
        Some(h)
    }

    fn render_icon(&mut self, icon: u64, surface: u64, size: u32) -> (px: Vec<u8>) {
        let _ = icon;
        let _ = surface;
        proof {
            assert((size as int) * (size as int) <= 65536) by (nonlinear_arith)
                requires
                    size <= 256,
            ;
        }
        let n_pixels: usize = (size as usize) * (size as usize);
        let mut px: Vec<u8> = Vec::new();
        let mut p: usize = 0;
        while p < n_pixels
            invariant
                n_pixels == (size as int) * (size as int),
                n_pixels <= 65536,
                p <= n_pixels,
                px@.len() == 4 * p,
                forall|i: int| 0 <= i < 4 * p ==> px@[i] == self.pattern_byte(i),
            decreases n_pixels - p,
        {
            let pixel = if p % 2 == 0 {
                self.even_pixel
            } else {
                self.odd_pixel
            };
            proof {
                assert((4 * (p as int) + 0) / 4 == p as int);
                assert((4 * (p as int) + 1) / 4 == p as int);
                assert((4 * (p as int) + 2) / 4 == p as int);
                assert((4 * (p as int) + 3) / 4 == p as int);
                assert((4 * (p as int) + 0) % 4 == 0);
                assert((4 * (p as int) + 1) % 4 == 1);
                assert((4 * (p as int) + 2) % 4 == 2);
                assert((4 * (p as int) + 3) % 4 == 3);
            }
            px.push(pixel.b);
            px.push(pixel.g);
            px.push(pixel.r);
            px.push(pixel.a);
            p = p + 1;
        }
        proof {
            vstd::arithmetic::mul::lemma_mul_is_associative(4int, size as int, size as int);
            assert(px@ =~= self.rendered(icon, size));
            lemma_sim_frame(*old(self), *self);
        }
        px
    }

    fn release_surface(&mut self, surface: u64) {
        remove_live_handle(&mut self.live_surfaces, surface);
        proof {
            lemma_sim_frame(*old(self), *self);
        }
    }

    fn com_initialize(&mut self) -> (r: bool) {
        if !self.com_available || self.com_count == u32::MAX || self.acquired == u64::MAX {
            proof {
                lemma_sim_frame(*old(self), *self);
            }
            return false;
        }
        self.com_count = self.com_count + 1;
        self.acquired = self.acquired + 1;
        proof {
            lemma_sim_frame(*old(self), *self);
        }
        true
    }

    fn com_uninitialize(&mut self) {
        self.com_count = self.com_count - 1;
        proof {
            lemma_sim_frame(*old(self), *self);
        }
    }

    fn parse_shell_path(&mut self, path: &String) -> (r: Option<u64>) {
        if self.parse_budget == 0 || self.acquired == u64::MAX || self.next_handle == u64::MAX {
            proof {
                lemma_sim_frame(*old(self), *self);
            }
            return None;
        }
        self.parse_budget = self.parse_budget - 1;
        let h = self.next_handle;
        self.next_handle = self.next_handle + 1;
        self.live_ids.push(h);
        self.acquired = self.acquired + 1;
        self.parse_log = Ghost(self.parse_log@.push((path@, h)));
        proof {
            lemma_sim_frame(*old(self), *self);
        }
        Some(h)
    }

    fn child_shell_id(&self, full: u64) -> (r: u64) {
        full
    }

    fn release_shell_id(&mut self, id: u64) {
        remove_live_handle(&mut self.live_ids, id);
        proof {
            lemma_sim_frame(*old(self), *self);
        }
    }

    fn create_data_object(&mut self, folder: u64, children: &Vec<u64>) -> (r: Option<u64>) {
        if !self.data_object_available || self.next_handle == u64::MAX {
            proof {
                lemma_sim_frame(*old(self), *self);
            }
            return None;
        }
        let h = self.next_handle;
        self.next_handle = self.next_handle + 1;
        self.built_data_object = Ghost(Some((h, folder, children@)));
        proof {
            lemma_sim_frame(*old(self), *self);
        }
        Some(h)
    }

    fn run_drag_loop(&mut self, data_object: u64, permitted_effects: u32) -> (r: DragStatus) {
        self.last_permitted_effects = permitted_effects;
        self.drag_offer = Ghost(Some((data_object, permitted_effects)));
        let r = self.run_script(permitted_effects);
        proof {
            lemma_script_outcome_resolves(old(self).remaining_script());
            lemma_sim_frame(*old(self), *self);
        }
        r
    }
}


} // verus!
