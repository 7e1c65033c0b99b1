use vstd::prelude::*;
use crate::caps::{
    Fraction, TemplateCaps, VideoCaps, frame_interval_ms, spec_frame_interval_ms, spec_template_caps,
    template_caps, usable_rate, video_caps,
};
use crate::format::{DisplaySetup, FormatError, PixelFormat, resolve_format};
use crate::geometry::{
    Geometry, PointerReply, Position, Size, SizeNotifications, cursor_in_bounds, notifications_for,
    pointer_inside, size_notifications,
};
use crate::visibility::WindowVisibility;

verus! {

/// One captured frame: the pixel bytes and how long it is to be shown.
#[derive(Debug)]
pub struct Frame {
    pub data: Vec<u8>,
    pub duration_ms: u64,
}

/// The mathematical value of a frame.
pub struct FrameView {
    pub data: Seq<u8>,
    pub duration_ms: u64,
}

impl View for Frame {
    type V = FrameView;

    open spec fn view(&self) -> FrameView {
        FrameView { data: self.data@, duration_ms: self.duration_ms }
    }
}

impl Frame {
    /// A copy of the frame with the same bytes and duration.
    pub fn duplicate(&self) -> (r: Frame)
        ensures
            r@ == self@,
    {
        let data = self.data.clone();
        assert(data@ =~= self.data@);
        Frame { data, duration_ms: self.duration_ms }
    }
}

/// The value of an optional frame.
pub open spec fn frame_opt_view(f: Option<Frame>) -> Option<FrameView> {
    match f {
        Some(f) => Some(f@),
        None => None,
    }
}

/// The value of optional bytes.
pub open spec fn bytes_opt_view(b: Option<Vec<u8>>) -> Option<Seq<u8>> {
    match b {
        Some(b) => Some(b@),
        None => None,
    }
}


/// Why an engine operation could not be carried out.
#[derive(Debug, Clone, Copy, PartialEq, Eq, Structural)]
pub enum EngineError {
    /// No display connection is open.
    NotConnected,
    /// No target window has been configured.
    WindowUnset,
    /// The window's geometry has not been queried yet.
    NoGeometry,
    /// No pixel format matches the window and display.
    Format(FormatError),
    /// The negotiated frame rate gives no frame interval.
    InvalidFrameRate,
}

/// A pull that produced no frame.
#[derive(Debug, Clone, Copy, PartialEq, Eq, Structural)]
pub enum FlowError {
    Error,
}

/// The mathematical state of the engine.
pub struct EngineModel {
    pub connected: bool,
    pub screen_num: Option<i32>,
    pub xid: Option<u32>,
    pub show_cursor: bool,
    pub needs_size_update: bool,
    pub position: Option<Position>,
    pub size: Option<Size>,
    pub frame_duration_ms: u64,
    pub last_frame_time_ms: Option<u64>,
    pub watcher_running: bool,
    pub last_frame: Option<FrameView>,
    pub visibility: WindowVisibility,
}

/// State of the window-capture engine. The display connection itself and the
/// watcher thread are held by the host; the engine records whether they exist
/// and makes every decision about them.
pub struct XImageRedux {
    connected: bool,
    screen_num: Option<i32>,
    xid: Option<u32>,
    show_cursor: bool,
    needs_size_update: bool,
    position: Option<Position>,
    size: Option<Size>,
    frame_duration_ms: u64,
    last_frame_time_ms: Option<u64>,
    watcher_running: bool,
    last_frame: Option<Frame>,
    visibility: WindowVisibility,
}

impl View for XImageRedux {
    type V = EngineModel;

    closed spec fn view(&self) -> EngineModel {
        EngineModel {
            connected: self.connected,
            screen_num: self.screen_num,
            xid: self.xid,
            show_cursor: self.show_cursor,
            needs_size_update: self.needs_size_update,
            position: self.position,
            size: self.size,
            frame_duration_ms: self.frame_duration_ms,
            last_frame_time_ms: self.last_frame_time_ms,
            watcher_running: self.watcher_running,
            last_frame: frame_opt_view(self.last_frame),
            visibility: self.visibility,
        }
    }
}

impl EngineModel {
    /// A running watcher needs an open connection, an open connection knows
    /// its screen, and a frame timestamp exists exactly when a frame is cached.
    pub open spec fn wf(self) -> bool {
        &&& self.watcher_running ==> self.connected
        &&& self.connected ==> self.screen_num is Some
        &&& (self.last_frame_time_ms is Some <==> self.last_frame is Some)
    }

    /// The cached frame when the last one was produced less than one frame
    /// interval before `now_ms`.
    pub open spec fn throttled(self, now_ms: u64) -> Option<FrameView> {
        match (self.last_frame_time_ms, self.last_frame) {
            (Some(t), Some(f)) => if (now_ms as int) < t as int + self.frame_duration_ms as int {
                Some(f)
            } else {
                None
            },
            _ => None,
        }
    }

    /// Whether the cached geometry must be queried again.
    pub open spec fn size_update_due(self) -> bool {
        self.needs_size_update || self.size is None
    }

    /// The state after the dirty flag has been read and cleared.
    pub open spec fn size_update_taken(self) -> EngineModel {
        EngineModel { needs_size_update: false, ..self }
    }

    /// The state after a new geometry reply has been cached.
    pub open spec fn geometry_recorded(self, g: Geometry) -> EngineModel {
        EngineModel { position: Some(g.spec_position()), size: Some(g.spec_size()), ..self }
    }

    /// The state after `f` has been produced at `now_ms`.
    pub open spec fn frame_committed(self, f: FrameView, now_ms: u64) -> EngineModel {
        EngineModel { last_frame: Some(f), last_frame_time_ms: Some(now_ms), ..self }
    }

    /// The state after the engine has been stopped.
    pub open spec fn stopped(self) -> EngineModel {
        EngineModel { connected: false, watcher_running: false, ..self }
    }

    /// A frame of freshly captured bytes, tagged with the frame interval.
    pub open spec fn fresh_frame(self, data: Seq<u8>) -> FrameView {
        FrameView { data, duration_ms: self.frame_duration_ms }
    }
}

/// How a pull begins.
#[derive(Debug)]
pub enum PullStart {
    /// Less than one frame interval has passed: hand out this cached frame.
    Reuse(Frame),
    /// Query geometry and visibility again, renegotiate, then capture.
    Reconcile,
    /// Capture straight away.
    Capture,
}

/// The value of a `PullStart`.
pub enum PullStartView {
    Reuse(FrameView),
    Reconcile,
    Capture,
}

impl View for PullStart {
    type V = PullStartView;

    open spec fn view(&self) -> PullStartView {
        match self {
            PullStart::Reuse(f) => PullStartView::Reuse(f@),
            PullStart::Reconcile => PullStartView::Reconcile,
            PullStart::Capture => PullStartView::Capture,
        }
    }
}

/// What follows an image fetch.
#[derive(Debug)]
pub enum FetchStep {
    /// Hand out this frame.
    Deliver(Frame),
    /// Query the pointer, then hand out this frame.
    CheckCursor(Frame),
    /// The pull fails.
    Fail,
}

/// The value of a `FetchStep`.
pub enum FetchStepView {
    Deliver(FrameView),
    CheckCursor(FrameView),
    Fail,
}

impl View for FetchStep {
    type V = FetchStepView;

    open spec fn view(&self) -> FetchStepView {
        match self {
            FetchStep::Deliver(f) => FetchStepView::Deliver(f@),
            FetchStep::CheckCursor(f) => FetchStepView::CheckCursor(f@),
            FetchStep::Fail => FetchStepView::Fail,
        }
    }
}

/// A request for the full window's image.
#[derive(Debug, Clone, Copy, PartialEq, Eq, Structural)]
pub struct ImageRequest {
    pub window: u32,
    pub x: i16,
    pub y: i16,
    pub width: u16,
    pub height: u16,
    pub plane_mask: u32,
}

impl EngineModel {
    /// How a pull at `now_ms` begins.
    pub open spec fn pull_start(self, now_ms: u64) -> PullStartView {
        match self.throttled(now_ms) {
            Some(f) => PullStartView::Reuse(f),
            None => if self.size_update_due() {
                PullStartView::Reconcile
            } else {
                PullStartView::Capture
            },
        }
    }

    /// The state after a pull at `now_ms` has begun.
    pub open spec fn after_pull_start(self, now_ms: u64) -> EngineModel {
        match self.throttled(now_ms) {
            Some(_) => self,
            None => self.size_update_taken(),
        }
    }

    /// Whether the pointer can be placed in the window: a window and a
    /// connection to query, and a cached position and size to compare with.
    pub open spec fn cursor_check(self) -> Result<(), EngineError> {
        match self.target() {
            Err(e) => Err(e),
            Ok(_) => if self.position is None || self.size is None {
                Err(EngineError::NoGeometry)
            } else {
                Ok(())
            },
        }
    }

    /// What follows a fetch that returned `fetched`, or failed with `None`.
    /// With pointer tracking on, the pointer query is asked for only when the
    /// pointer can be placed; otherwise the pull fails.
    pub open spec fn fetch_step(self, fetched: Option<Seq<u8>>) -> FetchStepView {
        match fetched {
            None => match self.last_frame {
                Some(f) => FetchStepView::Deliver(f),
                None => FetchStepView::Fail,
            },
            Some(d) => if self.show_cursor {
                if self.cursor_check() is Ok {
                    FetchStepView::CheckCursor(self.fresh_frame(d))
                } else {
                    FetchStepView::Fail
                }
            } else {
                FetchStepView::Deliver(self.fresh_frame(d))
            },
        }
    }

    /// The state after a fetch that returned `fetched` at `now_ms`.
    pub open spec fn after_fetch(self, fetched: Option<Seq<u8>>, now_ms: u64) -> EngineModel {
        match fetched {
            Some(d) => if self.show_cursor {
                self
            } else {
                self.frame_committed(self.fresh_frame(d), now_ms)
            },
            None => self,
        }
    }

    /// The window and connection every round-trip needs.
    pub open spec fn target(self) -> Result<u32, EngineError> {
        if self.xid is None {
            Err(EngineError::WindowUnset)
        } else if !self.connected {
            Err(EngineError::NotConnected)
        } else {
            Ok(self.xid->Some_0)
        }
    }

    /// The full-window image request for the cached size.
    pub open spec fn image_request(self) -> Result<ImageRequest, EngineError> {
        match self.target() {
            Err(e) => Err(e),
            Ok(w) => match self.size {
                None => Err(EngineError::NoGeometry),
                Some(s) => Ok(
                    ImageRequest {
                        window: w,
                        x: 0,
                        y: 0,
                        width: s.width,
                        height: s.height,
                        plane_mask: u32::MAX,
                    },
                ),
            },
        }
    }
}

impl XImageRedux {
    /// A fresh engine: no connection, no window, geometry to be queried.
    pub fn new() -> (r: XImageRedux)
        ensures
            r@ == (EngineModel {
                connected: false,
                screen_num: None,
                xid: None,
                show_cursor: false,
                needs_size_update: true,
                position: None,
                size: None,
                frame_duration_ms: 0,
                last_frame_time_ms: None,
                watcher_running: false,
                last_frame: None,
                visibility: WindowVisibility::Unknown,
            }),
            r@.wf(),
    {
        XImageRedux {
            connected: false,
            screen_num: None,
            xid: None,
            show_cursor: false,
            needs_size_update: true,
            position: None,
            size: None,
            frame_duration_ms: 0,
            last_frame_time_ms: None,
            watcher_running: false,
            last_frame: None,
            visibility: WindowVisibility::Unknown,
        }
    }

    /// The cached frame, when less than one frame interval has passed since it
    /// was produced.
    pub fn throttled_frame(&self, now_ms: u64) -> (r: Option<Frame>)
        ensures
            frame_opt_view(r) == self@.throttled(now_ms),
    {
        match (self.last_frame_time_ms, &self.last_frame) {
            (Some(t), Some(f)) => {
                if (now_ms as u128) < t as u128 + self.frame_duration_ms as u128 {
                    Some(f.duplicate())
                } else {
                    None
                }
            },
            _ => None,
        }
    }

    /// Reads and clears the dirty flag; says whether the geometry is to be
    /// queried again, which is also the case while none is cached.
    pub fn take_size_update(&mut self) -> (due: bool)
        requires
            old(self)@.wf(),
        ensures
            due == old(self)@.size_update_due(),
            final(self)@ == old(self)@.size_update_taken(),
            final(self)@.wf(),
    {
        let due = self.needs_size_update || self.size.is_none();
        self.needs_size_update = false;
        due
    }

    /// Marks the cached geometry as stale.
    pub fn mark_dirty(&mut self)
        requires
            old(self)@.wf(),
        ensures
            final(self)@ == (EngineModel { needs_size_update: true, ..old(self)@ }),
            final(self)@.wf(),
    {
        self.needs_size_update = true;
    }

    /// Begins a pull at `now_ms`: reuse the cached frame while throttled,
    /// otherwise read and clear the dirty flag and say whether geometry must
    /// be reconciled before the capture.
    pub fn begin_create(&mut self, now_ms: u64) -> (r: PullStart)
        requires
            old(self)@.wf(),
        ensures
            r@ == old(self)@.pull_start(now_ms),
            final(self)@ == old(self)@.after_pull_start(now_ms),
            final(self)@.wf(),
    {
        match self.throttled_frame(now_ms) {
            Some(f) => PullStart::Reuse(f),
            None => {
                if self.take_size_update() {
                    PullStart::Reconcile
                } else {
                    PullStart::Capture
                }
            },
        }
    }

    /// The window to query, when both a window and a connection exist.
    pub fn window_target(&self) -> (r: Result<u32, EngineError>)
        ensures
            r == self@.target(),
    {
        match self.xid {
            None => Err(EngineError::WindowUnset),
            Some(w) => if !self.connected {
                Err(EngineError::NotConnected)
            } else {
                Ok(w)
            },
        }
    }

    /// The request for an image of the whole window at its cached size.
    pub fn image_request(&self) -> (r: Result<ImageRequest, EngineError>)
        ensures
            r == self@.image_request(),
    {
        let w = match self.window_target() {
            Err(e) => return Err(e),
            Ok(w) => w,
        };
        match self.size {
            None => Err(EngineError::NoGeometry),
            Some(s) => Ok(
                ImageRequest {
                    window: w,
                    x: 0,
                    y: 0,
                    width: s.width,
                    height: s.height,
                    plane_mask: u32::MAX,
                },
            ),
        }
    }

    fn commit_frame(&mut self, frame: Frame, now_ms: u64)
        requires
            old(self)@.wf(),
        ensures
            final(self)@ == old(self)@.frame_committed(frame@, now_ms),
            final(self)@.wf(),
    {
        self.last_frame = Some(frame);
        self.last_frame_time_ms = Some(now_ms);
    }

    /// Takes in the outcome of an image fetch at `now_ms` (`None`: the
    /// round-trip failed). A fresh image becomes a frame tagged with the frame
    /// interval and is cached unless the pointer is still to be checked; a
    /// failed fetch falls back to the cached frame, and fails the pull only
    /// when there is none.
    pub fn after_fetch(&mut self, fetched: Option<Vec<u8>>, now_ms: u64) -> (r: FetchStep)
        requires
            old(self)@.wf(),
        ensures
            r@ == old(self)@.fetch_step(bytes_opt_view(fetched)),
            final(self)@ == old(self)@.after_fetch(bytes_opt_view(fetched), now_ms),
            final(self)@.wf(),
    {
        match fetched {
            None => match &self.last_frame {
                Some(f) => FetchStep::Deliver(f.duplicate()),
                None => FetchStep::Fail,
            },
            Some(data) => {
                let frame = Frame { data, duration_ms: self.frame_duration_ms };
                if self.show_cursor {
                    match self.cursor_ready() {
                        Ok(()) => FetchStep::CheckCursor(frame),
                        Err(_) => FetchStep::Fail,
                    }
                } else {
                    let out = frame.duplicate();
                    self.commit_frame(frame, now_ms);
                    FetchStep::Deliver(out)
                }
            },
        }
    }

    /// Whether the pointer can be placed in the window; the reason when not.
    pub fn cursor_ready(&self) -> (r: Result<(), EngineError>)
        ensures
            r == self@.cursor_check(),
    {
        if let Err(e) = self.window_target() {
            return Err(e);
        }
        match (self.position, self.size) {
            (Some(_), Some(_)) => Ok(()),
            _ => Err(EngineError::NoGeometry),
        }
    }

    /// The pointer's position relative to the window when it lies inside the
    /// cached window bounds. Fails without a window and a connection to query,
    /// or while no geometry is cached.
    pub fn cursor_is_in_bounds(&self, pointer: PointerReply) -> (r: Result<
        Option<(u16, u16)>,
        EngineError,
    >)
        ensures
            r is Err <==> self@.cursor_check() is Err,
            r is Err ==> r == Err::<Option<(u16, u16)>, EngineError>(self@.cursor_check()->Err_0),
            self@.xid is None ==> r == Err::<Option<(u16, u16)>, EngineError>(
                EngineError::WindowUnset,
            ),
            r is Ok ==> (r->Ok_0 is Some <==> pointer_inside(
                self@.position->Some_0,
                self@.size->Some_0,
                pointer,
            )),
            r matches Ok(Some(rel)) ==> rel.0 as int == pointer.root_x as int
                - self@.position->Some_0.x as int && rel.1 as int == pointer.root_y as int
                - self@.position->Some_0.y as int,
    {
        if let Err(e) = self.cursor_ready() {
            return Err(e);
        }
        match (self.position, self.size) {
            (Some(p), Some(s)) => Ok(cursor_in_bounds(p, s, pointer)),
            _ => Err(EngineError::NoGeometry),
        }
    }

    /// Finishes a pull whose frame waited for a pointer query (`None`: the
    /// query failed). The pointer's place in the window is established, the
    /// cursor itself is not drawn; the frame is then cached and handed out.
    pub fn after_cursor(&mut self, frame: Frame, pointer: Option<PointerReply>, now_ms: u64) -> (r:
        Result<Frame, FlowError>)
        requires
            old(self)@.wf(),
        ensures
            r is Ok <==> pointer is Some && old(self)@.cursor_check() is Ok,
            r is Ok ==> r->Ok_0@ == frame@ && final(self)@ == old(self)@.frame_committed(
                frame@,
                now_ms,
            ),
            r is Err ==> final(self)@ == old(self)@,
            final(self)@.wf(),
    {
        let p = match pointer {
            None => return Err(FlowError::Error),
            Some(p) => p,
        };
        match self.cursor_is_in_bounds(p) {
            Err(_) => Err(FlowError::Error),
            Ok(_) => {
                let out = frame.duplicate();
                self.commit_frame(frame, now_ms);
                Ok(out)
            },
        }
    }
}

/// The properties the engine exposes to its host.
#[derive(Debug, Clone, Copy, PartialEq, Eq, Structural)]
pub enum PropertyId {
    /// The target window's id; read and write.
    Xid,
    /// Whether the pointer is tracked for a cursor overlay; read and write.
    ShowCursor,
    /// The last known window width; read only.
    Width,
    /// The last known window height; read only.
    Height,
    /// The last known visibility; read only.
    Visibility,
}

/// A property's value.
#[derive(Debug, Clone, Copy, PartialEq, Eq, Structural)]
pub enum PropertyValue {
    UInt(u32),
    Bool(bool),
    Visibility(WindowVisibility),
}

/// Why a property could not be written.
#[derive(Debug, Clone, Copy, PartialEq, Eq, Structural)]
pub enum PropertyError {
    /// The value's type is not the property's.
    WrongType,
}

impl EngineModel {
    pub open spec fn spec_width(self) -> u32 {
        match self.size {
            Some(s) => s.width as u32,
            None => 0,
        }
    }

    pub open spec fn spec_height(self) -> u32 {
        match self.size {
            Some(s) => s.height as u32,
            None => 0,
        }
    }

    pub open spec fn spec_xid(self) -> u32 {
        match self.xid {
            Some(x) => x,
            None => 0,
        }
    }

    /// The value the host reads for a property.
    pub open spec fn property(self, id: PropertyId) -> PropertyValue {
        match id {
            PropertyId::Xid => PropertyValue::UInt(self.spec_xid()),
            PropertyId::ShowCursor => PropertyValue::Bool(self.show_cursor),
            PropertyId::Width => PropertyValue::UInt(self.spec_width()),
            PropertyId::Height => PropertyValue::UInt(self.spec_height()),
            PropertyId::Visibility => PropertyValue::Visibility(self.visibility),
        }
    }

    /// Whether a value has the type of a property.
    pub open spec fn value_fits(id: PropertyId, v: PropertyValue) -> bool {
        match id {
            PropertyId::Xid | PropertyId::Width | PropertyId::Height => v is UInt,
            PropertyId::ShowCursor => v is Bool,
            PropertyId::Visibility => v is Visibility,
        }
    }

    /// The state after the host writes `v` to a property of that type. The
    /// read-only properties are left as they are.
    pub open spec fn property_written(self, id: PropertyId, v: PropertyValue) -> EngineModel {
        match (id, v) {
            (PropertyId::Xid, PropertyValue::UInt(x)) => EngineModel { xid: Some(x), ..self },
            (PropertyId::ShowCursor, PropertyValue::Bool(b)) => EngineModel {
                show_cursor: b,
                ..self
            },
            _ => self,
        }
    }

    /// The state once a display connection on screen `screen_num` is open.
    pub open spec fn connection_opened(self, screen_num: i32) -> EngineModel {
        EngineModel { connected: true, screen_num: Some(screen_num), ..self }
    }
}

/// How a capability query starts.
#[derive(Debug, Clone, Copy, PartialEq, Eq, Structural)]
pub enum CapsStart {
    /// No window is configured: answer with the unconstrained capabilities.
    Template(TemplateCaps),
    /// Open a connection first; answer with the template if that fails.
    Connect,
    /// Reconcile geometry, resolve the pixel format, then answer.
    Query,
}

impl EngineModel {
    pub open spec fn caps_start(self) -> CapsStart {
        if self.xid is None {
            CapsStart::Template(spec_template_caps())
        } else if !self.connected {
            CapsStart::Connect
        } else {
            CapsStart::Query
        }
    }
}

impl XImageRedux {
    /// Decides how a capability query begins: with no window configured the
    /// answer is the unconstrained template, without touching the display.
    pub fn begin_caps(&self) -> (r: CapsStart)
        ensures
            r == self@.caps_start(),
    {
        if self.xid.is_none() {
            CapsStart::Template(template_caps())
        } else if !self.connected {
            CapsStart::Connect
        } else {
            CapsStart::Query
        }
    }

    /// Caches a geometry reply and says which notifications it calls for:
    /// each dimension that differs from the cached one and one resize event,
    /// nothing when only the position moved.
    pub fn record_geometry(&mut self, g: Geometry) -> (r: SizeNotifications)
        requires
            old(self)@.wf(),
        ensures
            r == size_notifications(old(self)@.size, g.spec_size()),
            final(self)@ == old(self)@.geometry_recorded(g),
            final(self)@.wf(),
    {
        let new = g.size();
        let notes = notifications_for(self.size, new);
        self.position = Some(g.position());
        self.size = Some(new);
        notes
    }

    /// Caches a visibility reply and says whether it changed.
    pub fn record_visibility(&mut self, v: WindowVisibility) -> (changed: bool)
        requires
            old(self)@.wf(),
        ensures
            changed == (v != old(self)@.visibility),
            final(self)@ == (EngineModel { visibility: v, ..old(self)@ }),
            final(self)@.wf(),
    {
        let changed = v != self.visibility;
        self.visibility = v;
        changed
    }

    /// Derives the window's pixel format from the display setup and the depth
    /// a geometry query reported, on the connection's screen.
    pub fn get_video_format(&self, setup: &DisplaySetup, depth: u8) -> (r: Result<
        PixelFormat,
        EngineError,
    >)
        requires
            self@.wf(),
        ensures
            self@.target() is Err ==> r == Err::<PixelFormat, EngineError>(
                self@.target()->Err_0,
            ),
            self@.target() is Ok ==> r == match crate::format::spec_resolve_format(
                setup,
                self@.screen_num->Some_0,
                depth,
            ) {
                Ok(f) => Ok::<PixelFormat, EngineError>(f),
                Err(e) => Err(EngineError::Format(e)),
            },
    {
        if let Err(e) = self.window_target() {
            return Err(e);
        }
        let screen_num = match self.screen_num {
            Some(n) => n,
            None => return Err(EngineError::NotConnected),
        };
        match resolve_format(setup, screen_num, depth) {
            Ok(f) => Ok(f),
            Err(e) => Err(EngineError::Format(e)),
        }
    }

    /// The capabilities fixed to a pixel format and the cached window size.
    pub fn caps(&self, format: PixelFormat) -> (r: Result<VideoCaps, EngineError>)
        ensures
            self@.size is None ==> r == Err::<VideoCaps, EngineError>(EngineError::NoGeometry),
            self@.size is Some ==> r == Ok::<VideoCaps, EngineError>(
                crate::caps::spec_video_caps(format, self@.size->Some_0),
            ),
    {
        match self.size {
            None => Err(EngineError::NoGeometry),
            Some(s) => Ok(video_caps(format, s)),
        }
    }

    /// Accepts a negotiated frame rate and stores the interval between frames.
    pub fn set_caps(&mut self, rate: Fraction) -> (r: Result<(), EngineError>)
        requires
            old(self)@.wf(),
        ensures
            !old(self)@.connected ==> r == Err::<(), EngineError>(EngineError::NotConnected),
            old(self)@.connected && !usable_rate(rate) ==> r == Err::<(), EngineError>(
                EngineError::InvalidFrameRate,
            ),
            r is Err ==> final(self)@ == old(self)@,
            r is Ok <==> old(self)@.connected && usable_rate(rate),
            r is Ok ==> final(self)@ == (EngineModel {
                frame_duration_ms: spec_frame_interval_ms(rate) as u64,
                ..old(self)@
            }),
            final(self)@.wf(),
    {
        if !self.connected {
            return Err(EngineError::NotConnected);
        }
        match frame_interval_ms(rate) {
            None => Err(EngineError::InvalidFrameRate),
            Some(ms) => {
                self.frame_duration_ms = ms;
                Ok(())
            },
        }
    }

    /// Records that a display connection on screen `screen_num` is open.
    pub fn open_connection(&mut self, screen_num: i32)
        requires
            old(self)@.wf(),
        ensures
            final(self)@ == old(self)@.connection_opened(screen_num),
            final(self)@.wf(),
    {
        self.connected = true;
        self.screen_num = Some(screen_num);
    }

    /// Starts capturing once the host has opened a connection on screen
    /// `screen_num`: records it and the running watcher, and returns the
    /// window the watcher is to follow. Fails, changing nothing, while no
    /// window is configured.
    pub fn start(&mut self, screen_num: i32) -> (r: Result<u32, EngineError>)
        requires
            old(self)@.wf(),
        ensures
            old(self)@.xid is None ==> r == Err::<u32, EngineError>(EngineError::WindowUnset)
                && final(self)@ == old(self)@,
            old(self)@.xid is Some ==> r == Ok::<u32, EngineError>(old(self)@.xid->Some_0)
                && final(self)@ == (EngineModel {
                watcher_running: true,
                ..old(self)@.connection_opened(screen_num)
            }),
            final(self)@.wf(),
    {
        match self.xid {
            None => Err(EngineError::WindowUnset),
            Some(w) => {
                self.open_connection(screen_num);
                self.watcher_running = true;
                Ok(w)
            },
        }
    }

    /// Stops capturing: the connection and the watcher are gone afterwards,
    /// whatever the state before. Returns whether a watcher was running, which
    /// the host is then to signal and join.
    pub fn stop(&mut self) -> (stop_watcher: bool)
        requires
            old(self)@.wf(),
        ensures
            stop_watcher == old(self)@.watcher_running,
            final(self)@ == old(self)@.stopped(),
            final(self)@.wf(),
    {
        let running = self.watcher_running;
        self.watcher_running = false;
        self.connected = false;
        running
    }

    /// Whether a display connection is open.
    pub fn is_connected(&self) -> (r: bool)
        ensures
            r == self@.connected,
    {
        self.connected
    }

    /// The configured window id, 0 while none is.
    pub fn xid(&self) -> (r: u32)
        ensures
            r == self@.spec_xid(),
    {
        match self.xid {
            Some(x) => x,
            None => 0,
        }
    }

    pub fn show_cursor(&self) -> (r: bool)
        ensures
            r == self@.show_cursor,
    {
        self.show_cursor
    }

    /// The last known width, 0 before the first geometry query.
    pub fn width(&self) -> (r: u32)
        ensures
            r == self@.spec_width(),
    {
        match self.size {
            Some(s) => s.width as u32,
            None => 0,
        }
    }

    /// The last known height, 0 before the first geometry query.
    pub fn height(&self) -> (r: u32)
        ensures
            r == self@.spec_height(),
    {
        match self.size {
            Some(s) => s.height as u32,
            None => 0,
        }
    }

    pub fn visibility(&self) -> (r: WindowVisibility)
        ensures
            r == self@.visibility,
    {
        self.visibility
    }

    /// The interval between frames, in milliseconds.
    pub fn frame_duration_ms(&self) -> (r: u64)
        ensures
            r == self@.frame_duration_ms,
    {
        self.frame_duration_ms
    }

    /// Reads a property.
    pub fn property(&self, id: PropertyId) -> (r: PropertyValue)
        ensures
            r == self@.property(id),
    {
        match id {
            PropertyId::Xid => PropertyValue::UInt(self.xid()),
            PropertyId::ShowCursor => PropertyValue::Bool(self.show_cursor),
            PropertyId::Width => PropertyValue::UInt(self.width()),
            PropertyId::Height => PropertyValue::UInt(self.height()),
            PropertyId::Visibility => PropertyValue::Visibility(self.visibility),
        }
    }

    /// Writes a property. Writes to the read-only ones are accepted and
    /// change nothing; a value of another type is refused.
    pub fn set_property(&mut self, id: PropertyId, value: PropertyValue) -> (r: Result<
        (),
        PropertyError,
    >)
        requires
            old(self)@.wf(),
        ensures
            r is Ok <==> EngineModel::value_fits(id, value),
            r is Ok ==> final(self)@ == old(self)@.property_written(id, value),
            r is Err ==> final(self)@ == old(self)@,
            final(self)@.wf(),
    {
        match (id, value) {
            (PropertyId::Xid, PropertyValue::UInt(x)) => {
                self.xid = Some(x);
                Ok(())
            },
            (PropertyId::ShowCursor, PropertyValue::Bool(b)) => {
                self.show_cursor = b;
                Ok(())
            },
            (PropertyId::Width, PropertyValue::UInt(_)) => Ok(()),
            (PropertyId::Height, PropertyValue::UInt(_)) => Ok(()),
            (PropertyId::Visibility, PropertyValue::Visibility(_)) => Ok(()),
            _ => Err(PropertyError::WrongType),
        }
    }
}

/// A reply that moves the window without resizing it calls for no width,
/// height or resize notification.
pub proof fn lemma_relocation_is_silent(m: EngineModel, g: Geometry)
    requires
        m.size == Some(g.spec_size()),
    ensures
        size_notifications(m.size, g.spec_size()) == (SizeNotifications {
            width: None,
            height: None,
            resize: None,
        }),
{
}

/// A reply with another width or height announces exactly the dimensions that
/// changed, each with its new value, and one resize event with the new size.
pub proof fn lemma_resize_notifies_changes(m: EngineModel, g: Geometry)
    requires
        m.size is Some,
        m.size->Some_0 != g.spec_size(),
    ensures
        ({
            let n = size_notifications(m.size, g.spec_size());
            &&& (n.width is Some <==> m.size->Some_0.width != g.width)
            &&& (n.height is Some <==> m.size->Some_0.height != g.height)
            &&& n.width is Some ==> n.width->Some_0 == g.width as u32
            &&& n.height is Some ==> n.height->Some_0 == g.height as u32
            &&& n.resize == Some(g.spec_size())
        }),
{
}

/// Stopping twice in a row is the same as stopping once, and leaves no
/// connection either time.
pub proof fn lemma_stop_is_idempotent(m: EngineModel)
    requires
        m.wf(),
    ensures
        !m.stopped().connected,
        !m.stopped().watcher_running,
        m.stopped().wf(),
        m.stopped().stopped() == m.stopped(),
        !m.stopped().stopped().connected,
{
}

/// Once a frame has been produced at `t0`, a pull at any `t1` less than one
/// frame interval later hands out that same frame and changes nothing, so no
/// round-trip is made. A capture without pointer tracking produces its frame
/// as soon as the fetch returns.
pub proof fn lemma_throttled_pull_reuses_frame(m: EngineModel, f: FrameView, t0: u64, t1: u64)
    requires
        m.wf(),
        (t1 as int) < t0 as int + m.frame_duration_ms as int,
    ensures
        m.frame_committed(f, t0).pull_start(t1) == PullStartView::Reuse(f),
        m.frame_committed(f, t0).after_pull_start(t1) == m.frame_committed(f, t0),
        !m.show_cursor ==> m.after_fetch(Some(f.data), t0) == m.frame_committed(
            m.fresh_frame(f.data),
            t0,
        ),
{
}

/// A failed image fetch hands out the cached frame, when there is one, and
/// leaves the state unchanged.
pub proof fn lemma_failed_fetch_falls_back(m: EngineModel, now_ms: u64)
    requires
        m.last_frame is Some,
    ensures
        m.fetch_step(None) == FetchStepView::Deliver(m.last_frame->Some_0),
        m.after_fetch(None, now_ms) == m,
{
}

} // verus!
