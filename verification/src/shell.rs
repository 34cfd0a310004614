use vstd::prelude::*;
use vstd::multiset::Multiset;

verus! {

/// The modifier-key bit that reports the primary selection button as held,
/// as the OS passes it to the continue-or-drop query.
pub const PRIMARY_BUTTON_MASK: u32 = 1;

/// Drop effect offered to the OS: the target may copy the selection.
pub const DROP_EFFECT_COPY: u32 = 1;

/// Drop effect offered to the OS: the target may move the selection.
pub const DROP_EFFECT_MOVE: u32 = 2;

/// The state of one drag session as the continue-or-drop query reports it:
/// the session stays in `Dragging` until one query resolves it to `Dropped`
/// or `Cancelled`, and no other transition exists.
#[derive(Clone, Copy, Debug, PartialEq, Eq, Structural)]
pub enum DragStatus {
    Dragging,
    Dropped,
    Cancelled,
}

/// The answer of the feedback query: this source never renders a custom
/// cursor, so the only choice is the OS default.
#[derive(Clone, Copy, Debug, PartialEq, Eq, Structural)]
pub enum DragFeedback {
    DefaultCursors,
}

/// What the OS reports to the drag source on one pump of the native drag
/// loop: whether a cancellation was signalled (an escape key press), and the
/// current modifier-key state.
#[derive(Clone, Copy, Debug, PartialEq, Eq, Structural)]
pub struct DragEvent {
    pub escape_pressed: bool,
    pub key_state: u32,
}

/// Whether a modifier-key state reports the primary selection button as
/// held: its lowest bit is set.
pub open spec fn primary_button_held(key_state: u32) -> bool {
    key_state % 2 == 1
}

/// The decision the continue-or-drop query returns for one event: cancel on
/// the cancellation signal, drop when the primary selection button is no
/// longer held, and otherwise keep dragging.
pub open spec fn continue_drag_decision(escape_pressed: bool, key_state: u32) -> DragStatus {
    if escape_pressed {
        DragStatus::Cancelled
    } else if !primary_button_held(key_state) {
        DragStatus::Dropped
    } else {
        DragStatus::Dragging
    }
}

/// The continue-or-drop query of the drag callback: the one state machine
/// driving a session, `Dragging -> {Dragging, Dropped, Cancelled}` on every
/// query.
pub fn query_continue_drag(escape_pressed: bool, key_state: u32) -> (r: DragStatus)
    ensures
        r == continue_drag_decision(escape_pressed, key_state),
{
    proof {
        assert((key_state & 1u32 == 0) == (key_state % 2u32 == 0)) by (bit_vector);
        assert(PRIMARY_BUTTON_MASK == 1u32);
    }
    if escape_pressed {
        DragStatus::Cancelled
    } else if key_state & PRIMARY_BUTTON_MASK == 0 {
        DragStatus::Dropped
    } else {
        DragStatus::Dragging
    }
}

/// The feedback query of the drag callback: whatever effect the OS proposes,
/// this source always requests the default cursor feedback.
pub fn query_drag_feedback(proposed_effect: u32) -> (r: DragFeedback)
    ensures
        r == DragFeedback::DefaultCursors,
{
    let _ = proposed_effect;
    DragFeedback::DefaultCursors
}

/// A cancellation signal always cancels; with no signal the session drops
/// exactly when the primary button is up, and continues exactly when it is
/// held: the three outcomes cover every event and no other transition exists.
pub proof fn lemma_drag_decision_cases(escape_pressed: bool, key_state: u32)
    ensures
        primary_button_held(key_state) == (key_state & PRIMARY_BUTTON_MASK != 0),
        escape_pressed ==> continue_drag_decision(escape_pressed, key_state)
            == DragStatus::Cancelled,
        !escape_pressed && !primary_button_held(key_state) ==> continue_drag_decision(
            escape_pressed,
            key_state,
        ) == DragStatus::Dropped,
        !escape_pressed && primary_button_held(key_state) ==> continue_drag_decision(
            escape_pressed,
            key_state,
        ) == DragStatus::Dragging,
{
    assert((key_state & 1u32 != 0) == (key_state % 2u32 == 1)) by (bit_vector);
}

/// The port to the native shell and graphics subsystem. Every operation that
/// acquires or releases an OS resource is a method here, with its effect on
/// the port's resource accounts in its contract, so that the operations built
/// on the port can be proved to release every acquired handle on every exit
/// path. A simulated port is [`crate::sim::SimShell`]; a real one would wrap
/// the platform's shell API and is not part of the verified library.
pub trait ShellPortView: Sized {
    /// Whether the platform offers a native shell icon and drag API at all.
    spec fn native_supported(&self) -> bool;

    /// The icon handles currently acquired and not yet released.
    spec fn icons(&self) -> Multiset<u64>;

    /// The drawing surfaces (with their device contexts) currently live.
    spec fn surfaces(&self) -> Multiset<u64>;

    /// The shell identifiers currently live.
    spec fn shell_ids(&self) -> Multiset<u64>;

    /// How many times the COM-style shell machinery has been initialized and
    /// not yet torn down.
    spec fn com_depth(&self) -> nat;

    /// How many resources have ever been acquired through this port.
    spec fn acquire_count(&self) -> nat;

    /// The BGRA pixel buffer the platform rasterizes for an icon handle at a
    /// requested edge length.
    spec fn rendered(&self, icon: u64, size: u32) -> Seq<u8>;

    /// The composition of the most recently built shell data object: its
    /// handle, the folder identifier it is rooted at, and the child
    /// identifiers it describes, in their given order. Nothing before the
    /// first build.
    spec fn last_data_object(&self) -> Option<(u64, u64, Seq<u64>)>;

    /// The most recent offer to the native drag loop: the data object it
    /// drove and the drop effects it permitted. Nothing before the first
    /// drag.
    spec fn last_drag_offer(&self) -> Option<(u64, u32)>;

    /// The trailing component of a full shell identifier: the value
    /// [`ShellPort::child_shell_id`] extracts. A fixed function of the
    /// identifier for each port.
    spec fn child_of(&self, full: u64) -> u64;

    /// Every successful path resolution this port has performed, oldest
    /// first: the path that was resolved and the identifier it received.
    spec fn parses(&self) -> Seq<(Seq<char>, u64)>;
}

/// The executable face of the port; its resource accounts are the spec
/// functions of [`ShellPortView`].
pub trait ShellPort: ShellPortView {
    /// Reports whether the platform offers a native shell API.
    fn supports_native_shell(&self) -> (r: bool)
        ensures
            r == self.native_supported(),
    ;

    /// Asks the shell for a large-icon representation of a path. `None`
    /// acquires nothing; `Some` hands over a live icon handle that must be
    /// released.
    fn query_file_icon(&mut self, path: &String) -> (r: Option<u64>)
        requires
            old(self).native_supported(),
        ensures
            port_frame(*old(self), *final(self)),
            session_record_unchanged(*old(self), *final(self)),
            final(self).parses() == old(self).parses(),
            final(self).surfaces() == old(self).surfaces(),
            final(self).shell_ids() == old(self).shell_ids(),
            final(self).com_depth() == old(self).com_depth(),
            match r {
                Some(icon) => final(self).icons() == old(self).icons().insert(icon)
                    && final(self).acquire_count() == old(self).acquire_count() + 1,
                None => final(self).icons() == old(self).icons() && final(self).acquire_count()
                    == old(self).acquire_count(),
            },
    ;

    /// Releases an icon handle. The handle must be live, so a release can
    /// never happen twice for one acquisition.
    fn release_icon(&mut self, icon: u64)
        requires
            old(self).icons().count(icon) > 0,
        ensures
            port_frame(*old(self), *final(self)),
            session_record_unchanged(*old(self), *final(self)),
            final(self).parses() == old(self).parses(),
            final(self).icons() == old(self).icons().remove(icon),
            final(self).surfaces() == old(self).surfaces(),
            final(self).shell_ids() == old(self).shell_ids(),
            final(self).com_depth() == old(self).com_depth(),
            final(self).acquire_count() == old(self).acquire_count(),
    ;

    /// Allocates an off-screen 32-bit top-down drawing surface of exactly
    /// `size` x `size` pixels, together with its device context. `None`
    /// acquires nothing and leaks no partial surface.
    fn allocate_surface(&mut self, size: u32) -> (r: Option<u64>)
        requires
            old(self).native_supported(),
            16 <= size <= 256,
        ensures
            port_frame(*old(self), *final(self)),
            session_record_unchanged(*old(self), *final(self)),
            final(self).parses() == old(self).parses(),
            final(self).icons() == old(self).icons(),
            final(self).shell_ids() == old(self).shell_ids(),
            final(self).com_depth() == old(self).com_depth(),
            match r {
                Some(surface) => final(self).surfaces() == old(self).surfaces().insert(surface)
                    && final(self).acquire_count() == old(self).acquire_count() + 1,
                None => final(self).surfaces() == old(self).surfaces() && final(self).acquire_count() == old(self).acquire_count(),
            },
    ;

    /// Draws the icon scaled into the surface, preserving alpha, and reads
    /// the surface's raw BGRA pixels back out.
    fn render_icon(&mut self, icon: u64, surface: u64, size: u32) -> (px: Vec<u8>)
        requires
            old(self).native_supported(),
            old(self).icons().count(icon) > 0,
            old(self).surfaces().count(surface) > 0,
            16 <= size <= 256,
        ensures
            port_frame(*old(self), *final(self)),
            session_record_unchanged(*old(self), *final(self)),
            final(self).parses() == old(self).parses(),
            port_resources_unchanged(*old(self), *final(self)),
            final(self).acquire_count() == old(self).acquire_count(),
            px@ == old(self).rendered(icon, size),
            px@.len() == crate::codec::pixel_buffer_len(size),
    ;

    /// Releases a drawing surface and the device context acquired with it.
    fn release_surface(&mut self, surface: u64)
        requires
            old(self).surfaces().count(surface) > 0,
        ensures
            port_frame(*old(self), *final(self)),
            session_record_unchanged(*old(self), *final(self)),
            final(self).parses() == old(self).parses(),
            final(self).icons() == old(self).icons(),
            final(self).surfaces() == old(self).surfaces().remove(surface),
            final(self).shell_ids() == old(self).shell_ids(),
            final(self).com_depth() == old(self).com_depth(),
            final(self).acquire_count() == old(self).acquire_count(),
    ;

    /// Initializes the COM-style shell machinery for the calling thread.
    /// `false` acquires nothing.
    fn com_initialize(&mut self) -> (r: bool)
        requires
            old(self).native_supported(),
        ensures
            port_frame(*old(self), *final(self)),
            session_record_unchanged(*old(self), *final(self)),
            final(self).parses() == old(self).parses(),
            final(self).icons() == old(self).icons(),
            final(self).surfaces() == old(self).surfaces(),
            final(self).shell_ids() == old(self).shell_ids(),
            r ==> final(self).com_depth() == old(self).com_depth() + 1 && final(self).acquire_count() == old(self).acquire_count() + 1,
            !r ==> final(self).com_depth() == old(self).com_depth() && final(self).acquire_count()
                == old(self).acquire_count(),
    ;

    /// Tears down one initialization of the COM-style shell machinery.
    fn com_uninitialize(&mut self)
        requires
            old(self).com_depth() > 0,
        ensures
            port_frame(*old(self), *final(self)),
            session_record_unchanged(*old(self), *final(self)),
            final(self).parses() == old(self).parses(),
            final(self).icons() == old(self).icons(),
            final(self).surfaces() == old(self).surfaces(),
            final(self).shell_ids() == old(self).shell_ids(),
            final(self).com_depth() == (old(self).com_depth() - 1) as nat,
            final(self).acquire_count() == old(self).acquire_count(),
    ;

    /// Resolves a textual path into a shell identifier. `None` acquires
    /// nothing; `Some` hands over a live identifier that must be released.
    fn parse_shell_path(&mut self, path: &String) -> (r: Option<u64>)
        requires
            old(self).native_supported(),
            old(self).com_depth() > 0,
        ensures
            port_frame(*old(self), *final(self)),
            session_record_unchanged(*old(self), *final(self)),
            final(self).icons() == old(self).icons(),
            final(self).surfaces() == old(self).surfaces(),
            final(self).com_depth() == old(self).com_depth(),
            match r {
                Some(id) => final(self).shell_ids() == old(self).shell_ids().insert(id) && final(self).acquire_count() == old(self).acquire_count() + 1 && final(self).parses()
                    == old(self).parses().push((path@, id)),
                None => final(self).shell_ids() == old(self).shell_ids() && final(self).acquire_count() == old(self).acquire_count() && final(self).parses() == old(self).parses(),
            },
    ;

    /// The trailing component of a full shell identifier, relative to its
    /// folder: a view into the identifier, not a new resource.
    fn child_shell_id(&self, full: u64) -> (r: u64)
        requires
            self.shell_ids().count(full) > 0,
        ensures
            r == self.child_of(full),
    ;

    /// Releases a shell identifier.
    fn release_shell_id(&mut self, id: u64)
        requires
            old(self).shell_ids().count(id) > 0,
        ensures
            port_frame(*old(self), *final(self)),
            session_record_unchanged(*old(self), *final(self)),
            final(self).parses() == old(self).parses(),
            final(self).icons() == old(self).icons(),
            final(self).surfaces() == old(self).surfaces(),
            final(self).shell_ids() == old(self).shell_ids().remove(id),
            final(self).com_depth() == old(self).com_depth(),
            final(self).acquire_count() == old(self).acquire_count(),
    ;

    /// Builds the shell data object describing the child identifiers rooted
    /// at the folder identifier. The object's own lifetime ends with the
    /// drag call, so it is not a tracked resource; `None` is a construction
    /// failure.
    fn create_data_object(&mut self, folder: u64, children: &Vec<u64>) -> (r: Option<u64>)
        requires
            old(self).native_supported(),
            old(self).com_depth() > 0,
            old(self).shell_ids().count(folder) > 0,
        ensures
            port_frame(*old(self), *final(self)),
            port_resources_unchanged(*old(self), *final(self)),
            final(self).acquire_count() == old(self).acquire_count(),
            final(self).last_drag_offer() == old(self).last_drag_offer(),
            final(self).parses() == old(self).parses(),
            match r {
                Some(d) => final(self).last_data_object() == Some((d, folder, children@)),
                None => final(self).last_data_object() == old(self).last_data_object(),
            },
    ;

    /// The blocking native drag loop over a data object. The loop pumps
    /// events and puts each to the drag callback's two queries
    /// ([`query_continue_drag`] and [`query_drag_feedback`]) until one
    /// continue-or-drop query resolves the session; it may block
    /// indefinitely until user action. It acquires nothing, releases
    /// nothing, and only ever returns a resolved session: a drop or a
    /// cancellation, never `Dragging`.
    fn run_drag_loop(&mut self, data_object: u64, permitted_effects: u32) -> (r: DragStatus)
        requires
            old(self).native_supported(),
        ensures
            port_frame(*old(self), *final(self)),
            port_resources_unchanged(*old(self), *final(self)),
            final(self).acquire_count() == old(self).acquire_count(),
            final(self).last_data_object() == old(self).last_data_object(),
            final(self).last_drag_offer() == Some((data_object, permitted_effects)),
            final(self).parses() == old(self).parses(),
            r == DragStatus::Dropped || r == DragStatus::Cancelled,
    ;
}

/// What no port operation ever changes: whether the platform is supported,
/// and what each icon rasterizes to.
pub open spec fn port_frame<S: ShellPortView>(pre: S, post: S) -> bool {
    &&& post.native_supported() == pre.native_supported()
    &&& (forall|icon: u64, size: u32| #[trigger]
        post.rendered(icon, size) == pre.rendered(icon, size))
    &&& (forall|full: u64| #[trigger] post.child_of(full) == pre.child_of(full))
}

/// All four resource accounts of a port are as they were: nothing is still
/// acquired that was not, and nothing was released that was live before.
pub open spec fn port_resources_unchanged<S: ShellPortView>(pre: S, post: S) -> bool {
    &&& post.icons() == pre.icons()
    &&& post.surfaces() == pre.surfaces()
    &&& post.shell_ids() == pre.shell_ids()
    &&& post.com_depth() == pre.com_depth()
}

/// The session record of a port is as it was: no data object was built and
/// no drag loop was driven in between.
pub open spec fn session_record_unchanged<S: ShellPortView>(pre: S, post: S) -> bool {
    &&& post.last_data_object() == pre.last_data_object()
    &&& post.last_drag_offer() == pre.last_drag_offer()
}

/// The one mask every drag session offers to the OS, spelled out.
pub proof fn lemma_offered_effects_value()
    ensures
        DROP_EFFECT_COPY | DROP_EFFECT_MOVE == 3u32,
{
    assert(1u32 | 2u32 == 3u32) by (bit_vector);
}

} // verus!
