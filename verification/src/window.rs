//! Which screen to draw on, and in which mode.
use vstd::prelude::*;

use drm::control::ModeTypeFlags;

verus! {

/// The bit of a mode type that marks the mode that a screen prefers.
pub const PREFERRED: u32 = 8;

/// A mode that a screen offers.
#[derive(Debug, PartialEq, Eq)]
pub struct ModeInfo {
    pub name: Vec<u8>,
    pub width: u16,
    pub height: u16,
    pub mode_type: u32,
}

impl ModeInfo {
    /// Whether the screen prefers the mode.
    pub open spec fn is_preferred(self) -> bool {
        self.mode_type & PREFERRED == PREFERRED
    }

    /// Whether the mode is no wider than another, and no higher where it is as wide.
    pub open spec fn no_larger_than(self, other: ModeInfo) -> bool {
        self.width < other.width || self.width == other.width && self.height <= other.height
    }
}

/// What is known of a connector that answered.
#[derive(Debug, PartialEq, Eq)]
pub struct ConnectorInfo {
    pub connected: bool,
    pub modes: Vec<ModeInfo>,
    pub current_encoder: Option<u32>,
}

impl ConnectorInfo {
    /// A connector with a screen that offers a mode.
    pub open spec fn is_usable(self) -> bool {
        self.connected && self.modes@.len() > 0
    }
}

/// Whether a connector answered and is usable.
pub open spec fn reports_usable(report: Option<ConnectorInfo>) -> bool {
    report is Some && report->0.is_usable()
}

/// Whether a screen prefers any of its modes.
pub open spec fn has_preferred(modes: Seq<ModeInfo>) -> bool {
    exists|i: int| 0 <= i < modes.len() && (#[trigger] modes[i]).is_preferred()
}

/// Whether `k` is the mode to use: the first that the screen prefers, or else the largest, the
/// last of them where several are equally large.
pub open spec fn is_best_mode(modes: Seq<ModeInfo>, k: int) -> bool {
    &&& 0 <= k < modes.len()
    &&& if has_preferred(modes) {
        &&& modes[k].is_preferred()
        &&& forall|i: int| 0 <= i < k ==> !(#[trigger] modes[i]).is_preferred()
    } else {
        &&& forall|i: int| 0 <= i < k ==> (#[trigger] modes[i]).no_larger_than(modes[k])
        &&& forall|i: int| k < i < modes.len() ==> !modes[k].no_larger_than(#[trigger] modes[i])
    }
}

/// The mode to use.
pub open spec fn best_mode(modes: Seq<ModeInfo>) -> int {
    choose|k: int| is_best_mode(modes, k)
}

/// There is one mode to use, if there is any mode.
pub proof fn best_mode_is_unique(modes: Seq<ModeInfo>, j: int, k: int)
    requires
        is_best_mode(modes, j),
        is_best_mode(modes, k),
    ensures
        j == k,
        best_mode(modes) == k,
{
    let c = best_mode(modes);
    assert(is_best_mode(modes, c));
    if has_preferred(modes) {
        assert(!(j < k) && !(k < j));
        assert(!(c < k) && !(k < c));
    } else {
        if j < k {
            assert(modes[j].no_larger_than(modes[k]));
        }
        if k < j {
            assert(modes[k].no_larger_than(modes[j]));
        }
        if c < k {
            assert(modes[c].no_larger_than(modes[k]));
        }
        if k < c {
            assert(modes[k].no_larger_than(modes[c]));
        }
    }
}

/// A screen that offers a mode has a mode to use.
pub proof fn best_mode_exists(modes: Seq<ModeInfo>)
    requires
        modes.len() > 0,
    ensures
        is_best_mode(modes, best_mode(modes)),
{
    if has_preferred(modes) {
        let i = choose|i: int| 0 <= i < modes.len() && (#[trigger] modes[i]).is_preferred();
        let k = first_preferred_below(modes, i);
        assert(is_best_mode(modes, k));
    } else {
        let k = last_largest_below(modes, modes.len() as int);
        assert(is_best_mode(modes, k));
    }
}

/// There is a first preferred mode up to a preferred one.
proof fn first_preferred_below(modes: Seq<ModeInfo>, i: int) -> (k: int)
    requires
        0 <= i < modes.len(),
        modes[i].is_preferred(),
    ensures
        0 <= k <= i,
        modes[k].is_preferred(),
        forall|j: int| 0 <= j < k ==> !(#[trigger] modes[j]).is_preferred(),
    decreases i,
{
    if exists|j: int| 0 <= j < i && (#[trigger] modes[j]).is_preferred() {
        let j = choose|j: int| 0 <= j < i && (#[trigger] modes[j]).is_preferred();
        first_preferred_below(modes, j)
    } else {
        i
    }
}

/// There is a last largest mode among the first `n`.
proof fn last_largest_below(modes: Seq<ModeInfo>, n: int) -> (k: int)
    requires
        0 < n <= modes.len(),
    ensures
        0 <= k < n,
        forall|j: int| 0 <= j < n ==> (#[trigger] modes[j]).no_larger_than(modes[k]),
        forall|j: int| k < j < n ==> !modes[k].no_larger_than(#[trigger] modes[j]),
    decreases n,
{
    if n == 1 {
        0
    } else {
        let k = last_largest_below(modes, n - 1);
        if modes[k].no_larger_than(modes[n - 1]) {
            n - 1
        } else {
            k
        }
    }
}

/// Tests a mode type with `ModeTypeFlags::contains` of `drm`, after `from_bits_truncate`. Claimed:
/// the result is whether the bit of `ModeTypeFlags::PREFERRED`, which is 8, is set.
#[verifier::external_body]
fn mode_type_is_preferred(bits: u32) -> (r: bool)
    ensures
        r == (bits & PREFERRED == PREFERRED),
{
    ModeTypeFlags::from_bits_truncate(bits).contains(ModeTypeFlags::PREFERRED)
}

/// Tests bytes with `std::str::from_utf8`. Claimed: the result is whether they are UTF-8.
#[verifier::external_body]
fn is_utf8(bytes: &[u8]) -> (r: bool)
    ensures
        r == vstd::utf8::valid_utf8(bytes@),
{
    std::str::from_utf8(bytes).is_ok()
}

/// The first mode that the screen prefers.
fn first_preferred(modes: &Vec<ModeInfo>) -> (r: Option<usize>)
    ensures
        r is Some <==> has_preferred(modes@),
        r matches Some(k) ==> k < modes@.len() && modes@[k as int].is_preferred() && forall|i: int|
            0 <= i < k ==> !(#[trigger] modes@[i]).is_preferred(),
{
    let mut i: usize = 0;
    while i < modes.len()
        invariant
            0 <= i <= modes@.len(),
            forall|j: int| 0 <= j < i ==> !(#[trigger] modes@[j]).is_preferred(),
        decreases modes@.len() - i,
    {
        if mode_type_is_preferred(modes[i].mode_type) {
            assert(modes@[i as int].is_preferred());
            return Some(i);
        }
        i += 1;
    }
    None
}

/// The largest mode, the last of them where several are equally large.
fn last_largest(modes: &Vec<ModeInfo>) -> (r: usize)
    requires
        modes@.len() > 0,
    ensures
        r < modes@.len(),
        forall|i: int|
            0 <= i < modes@.len() ==> (#[trigger] modes@[i]).no_larger_than(modes@[r as int]),
        forall|i: int| r < i < modes@.len() ==> !modes@[r as int].no_larger_than(
            #[trigger] modes@[i],
        ),
{
    let mut best: usize = 0;
    let mut i: usize = 1;
    while i < modes.len()
        invariant
            best < i <= modes@.len(),
            forall|j: int|
                0 <= j < i ==> (#[trigger] modes@[j]).no_larger_than(modes@[best as int]),
            forall|j: int| best < j < i ==> !modes@[best as int].no_larger_than(
                #[trigger] modes@[j],
            ),
        decreases modes@.len() - i,
    {
        if modes[best].width < modes[i].width || (modes[best].width == modes[i].width
            && modes[best].height <= modes[i].height) {
            best = i;
        }
        i += 1;
    }
    best
}

/// The mode to use of those that a screen offers: the first that it prefers, or else the largest.
pub fn select_mode(modes: &Vec<ModeInfo>) -> (r: Option<usize>)
    ensures
        r is None <==> modes@.len() == 0,
        r matches Some(k) ==> is_best_mode(modes@, k as int) && k == best_mode(modes@),
{
    if modes.len() == 0 {
        return None;
    }
    let chosen: usize = match first_preferred(modes) {
        Some(k) => k,
        None => last_largest(modes),
    };
    proof {
        best_mode_is_unique(modes@, chosen as int, chosen as int);
    }
    Some(chosen)
}

/// Why there is nothing to draw on.
#[derive(Clone, Copy, Debug, PartialEq, Eq, Structural)]
pub enum WindowError {
    /// No connector has a screen that offers a mode.
    NoConnectedConnector,
    /// The connector has no encoder.
    NoCurrentEncoder,
    /// The encoder has no CRTC.
    NoCrtc,
}

impl WindowError {
    /// The error in words.
    pub open spec fn text(self) -> Seq<char> {
        match self {
            WindowError::NoConnectedConnector => "no connected connector found"@,
            WindowError::NoCurrentEncoder => "no current encoder"@,
            WindowError::NoCrtc => "no crtc on encoder"@,
        }
    }

    /// The error in words.
    pub fn message(&self) -> (r: &'static str)
        ensures
            r@ == self.text(),
    {
        match self {
            WindowError::NoConnectedConnector => "no connected connector found",
            WindowError::NoCurrentEncoder => "no current encoder",
            WindowError::NoCrtc => "no crtc on encoder",
        }
    }
}

/// The connector, the mode, the encoder and the CRTC to draw with. Connector and mode are given by
/// their place among those that were found.
#[derive(Clone, Copy, Debug, PartialEq, Eq, Structural)]
pub struct GbmContext {
    pub connector: usize,
    pub mode: usize,
    pub encoder: u32,
    pub crtc: u32,
    pub width: u16,
    pub height: u16,
}

/// How the pixels of a surface are written.
#[derive(Clone, Copy, Debug, PartialEq, Eq, Structural)]
pub enum SurfaceFormat {
    /// Eight bits each, unused, red, green and blue.
    Xrgb8888,
}

/// What a surface is made with.
#[derive(Clone, Copy, Debug, PartialEq, Eq, Structural)]
pub struct SurfaceInfo {
    pub width: u32,
    pub height: u32,
    /// How its pixels are written.
    pub format: SurfaceFormat,
    /// Whether the screen can show it.
    pub scanout: bool,
    /// Whether it can be drawn on.
    pub rendering: bool,
}

/// The surface for a mode of the given size: it can be drawn on, and the screen can show it.
pub open spec fn surface_of(width: u16, height: u16) -> SurfaceInfo {
    SurfaceInfo {
        width: width as u32,
        height: height as u32,
        format: SurfaceFormat::Xrgb8888,
        scanout: true,
        rendering: true,
    }
}

impl GbmContext {
    /// What the surface is made with.
    pub fn surface_info(&self) -> (r: SurfaceInfo)
        ensures
            r == surface_of(self.width, self.height),
    {
        SurfaceInfo {
            width: self.width as u32,
            height: self.height as u32,
            format: SurfaceFormat::Xrgb8888,
            scanout: true,
            rendering: true,
        }
    }
}

/// How far the search for a place to draw on is.
#[derive(Clone, Copy, Debug, PartialEq, Eq, Structural)]
pub enum GbmState {
    /// The connectors before `next` are no use.
    Probing { next: usize, total: usize },
    /// Connector and mode are chosen.
    Selected { connector: usize, mode: usize, width: u16, height: u16, encoder: u32 },
    /// All is chosen.
    Done(GbmContext),
    /// There is nothing to draw on.
    Failed,
}

/// What the search found out.
#[derive(Debug, PartialEq, Eq)]
pub enum GbmEvent {
    /// What is known of the connector, if it answered.
    Probed(Option<ConnectorInfo>),
    /// The CRTC of the encoder, if it has one.
    EncoderRead(Option<u32>),
    /// The encoder could not be read.
    EncoderRefused,
}

/// What the search is to do next.
#[derive(Clone, Copy, Debug, PartialEq, Eq, Structural)]
pub enum GbmAction {
    /// Ask the connector at this place.
    Probe(usize),
    /// Ask the encoder for its CRTC.
    ReadEncoder(u32),
    /// Make a surface.
    CreateSurface(SurfaceInfo),
    /// Give up.
    Fail(WindowError),
    /// Give up with the error that the name of the mode at this place is not UTF-8.
    RejectName(usize),
    /// Give up with the error of the encoder.
    Abort,
}

/// Whether an event can happen in a state.
pub open spec fn can_happen(state: GbmState, event: GbmEvent) -> bool {
    match (state, event) {
        (GbmState::Probing { next, total }, GbmEvent::Probed(_)) => next < total,
        (GbmState::Selected { .. }, GbmEvent::EncoderRead(_)) => true,
        (GbmState::Selected { .. }, GbmEvent::EncoderRefused) => true,
        _ => false,
    }
}

/// The start of a search among `total` connectors.
pub open spec fn search_start(total: usize) -> (GbmState, GbmAction) {
    if total == 0 {
        (GbmState::Failed, GbmAction::Fail(WindowError::NoConnectedConnector))
    } else {
        (GbmState::Probing { next: 0, total }, GbmAction::Probe(0))
    }
}

/// What follows the choice of a connector: its best mode must have a readable name, and it must
/// have an encoder.
pub open spec fn selection(connector: usize, info: ConnectorInfo) -> (GbmState, GbmAction) {
    let k = best_mode(info.modes@);
    let mode = info.modes@[k];
    if !vstd::utf8::valid_utf8(mode.name@) {
        (GbmState::Failed, GbmAction::RejectName(k as usize))
    } else {
        match info.current_encoder {
            None => (GbmState::Failed, GbmAction::Fail(WindowError::NoCurrentEncoder)),
            Some(encoder) => (
                GbmState::Selected {
                    connector,
                    mode: k as usize,
                    width: mode.width,
                    height: mode.height,
                    encoder,
                },
                GbmAction::ReadEncoder(encoder),
            ),
        }
    }
}

/// What follows the report of a connector: a usable one is chosen, and after another one the next
/// is asked, while there is a next.
pub open spec fn after_probe(next: usize, total: usize, report: Option<ConnectorInfo>) -> (
    GbmState,
    GbmAction,
) {
    if reports_usable(report) {
        selection(next, report->0)
    } else if next + 1 < total {
        (
            GbmState::Probing { next: (next + 1) as usize, total },
            GbmAction::Probe((next + 1) as usize),
        )
    } else {
        (GbmState::Failed, GbmAction::Fail(WindowError::NoConnectedConnector))
    }
}

/// The state and the action that follow an event.
pub open spec fn after(state: GbmState, event: GbmEvent) -> (GbmState, GbmAction) {
    match (state, event) {
        (GbmState::Probing { next, total }, GbmEvent::Probed(report)) => after_probe(
            next,
            total,
            report,
        ),
        (
            GbmState::Selected { connector, mode, width, height, encoder },
            GbmEvent::EncoderRead(Some(crtc)),
        ) => (
            GbmState::Done(GbmContext { connector, mode, encoder, crtc, width, height }),
            GbmAction::CreateSurface(surface_of(width, height)),
        ),
        (_, GbmEvent::EncoderRefused) => (GbmState::Failed, GbmAction::Abort),
        _ => (GbmState::Failed, GbmAction::Fail(WindowError::NoCrtc)),
    }
}

impl GbmContext {
    /// Starts the search for a place to draw on, among `total` connectors.
    pub fn create(total: usize) -> (r: (GbmState, GbmAction))
        ensures
            r == search_start(total),
    {
        if total == 0 {
            (GbmState::Failed, GbmAction::Fail(WindowError::NoConnectedConnector))
        } else {
            (GbmState::Probing { next: 0, total }, GbmAction::Probe(0))
        }
    }

    /// Takes up what the search found out.
    pub fn step(state: GbmState, event: GbmEvent) -> (r: (GbmState, GbmAction))
        requires
            can_happen(state, event),
        ensures
            r == after(state, event),
    {
        match (state, event) {
            (GbmState::Probing { next, total }, GbmEvent::Probed(report)) => {
                if let Some(info) = report {
                    if info.connected {
                        if let Some(k) = select_mode(&info.modes) {
                            return GbmContext::select(next, &info, k);
                        }
                    }
                }
                if next + 1 < total {
                    (GbmState::Probing { next: next + 1, total }, GbmAction::Probe(next + 1))
                } else {
                    (GbmState::Failed, GbmAction::Fail(WindowError::NoConnectedConnector))
                }
            },
            (
                GbmState::Selected { connector, mode, width, height, encoder },
                GbmEvent::EncoderRead(Some(crtc)),
            ) => {
                let context: GbmContext = GbmContext {
                    connector,
                    mode,
                    encoder,
                    crtc,
                    width,
                    height,
                };
                (GbmState::Done(context), GbmAction::CreateSurface(context.surface_info()))
            },
            (_, GbmEvent::EncoderRefused) => (GbmState::Failed, GbmAction::Abort),
            _ => (GbmState::Failed, GbmAction::Fail(WindowError::NoCrtc)),
        }
    }

    /// Chooses a connector and the mode at `k`.
    fn select(connector: usize, info: &ConnectorInfo, k: usize) -> (r: (GbmState, GbmAction))
        requires
            k < info.modes@.len(),
            k == best_mode(info.modes@),
        ensures
            r == selection(connector, *info),
    {
        let mode: &ModeInfo = &info.modes[k];
        if !is_utf8(mode.name.as_slice()) {
            return (GbmState::Failed, GbmAction::RejectName(k));
        }
        match info.current_encoder {
            None => (GbmState::Failed, GbmAction::Fail(WindowError::NoCurrentEncoder)),
            Some(encoder) => (
                GbmState::Selected {
                    connector,
                    mode: k,
                    width: mode.width,
                    height: mode.height,
                    encoder,
                },
                GbmAction::ReadEncoder(encoder),
            ),
        }
    }
}

/// The outcome of asking connectors from `next` on, one after the other, until one is chosen or
/// none is left.
pub open spec fn search(reports: Seq<Option<ConnectorInfo>>, next: int) -> (GbmState, GbmAction)
    decreases reports.len() - next,
{
    if !(0 <= next < reports.len()) {
        (GbmState::Failed, GbmAction::Fail(WindowError::NoConnectedConnector))
    } else {
        let r = after(
            GbmState::Probing { next: next as usize, total: reports.len() as usize },
            GbmEvent::Probed(reports[next]),
        );
        if r.0 is Probing {
            search(reports, next + 1)
        } else {
            r
        }
    }
}

/// The search ends at the first usable connector, whatever comes after it. It fails for want of a
/// connector if and only if none is usable.
pub proof fn search_finds_first_usable(reports: Seq<Option<ConnectorInfo>>, next: int)
    requires
        0 <= next <= reports.len() <= usize::MAX,
    ensures
        forall|j: int|
            next <= j < reports.len() && #[trigger] reports_usable(reports[j]) && (forall|i: int|
                next <= i < j ==> !#[trigger] reports_usable(reports[i])) ==> search(reports, next)
                == selection(j as usize, reports[j]->0),
        (forall|i: int| next <= i < reports.len() ==> !#[trigger] reports_usable(reports[i]))
            <==> search(reports, next).1 == GbmAction::Fail(WindowError::NoConnectedConnector),
    decreases reports.len() - next,
{
    if next < reports.len() {
        search_finds_first_usable(reports, next + 1);
        assert(reports[next] == reports[next]);
        if reports_usable(reports[next]) {
            assert(search(reports, next) == selection(next as usize, reports[next]->0));
        } else {
            assert(search(reports, next) == search(reports, next + 1));
        }
    }
}

/// Once a connector is chosen no other one is asked, whatever is missing from it: the search ends
/// with the next event, and a surface is made only where the encoder has a CRTC.
pub proof fn chosen_connector_is_final(connector: usize, info: ConnectorInfo, event: GbmEvent)
    requires
        info.is_usable(),
    ensures
        ({
            let (state, action) = selection(connector, info);
            let (end, last) = after(state, event);
            &&& state is Failed || state is Selected
            &&& state is Failed ==> action is RejectName || action == GbmAction::Fail(
                WindowError::NoCurrentEncoder,
            )
            &&& state is Selected ==> info.current_encoder is Some && action
                == GbmAction::ReadEncoder(info.current_encoder->0)
            &&& state is Selected && can_happen(state, event) ==> match event {
                GbmEvent::EncoderRead(Some(_)) => end is Done && last is CreateSurface,
                GbmEvent::EncoderRead(None) => end is Failed && last == GbmAction::Fail(
                    WindowError::NoCrtc,
                ),
                GbmEvent::EncoderRefused => end is Failed && last is Abort,
                GbmEvent::Probed(_) => false,
            }
        }),
{
}

/// A search that succeeds draws on the best mode of the connector that it chose, through the
/// encoder of that connector.
pub proof fn search_yields_best_mode(connector: usize, info: ConnectorInfo, crtc: u32)
    requires
        info.is_usable(),
        selection(connector, info).0 is Selected,
    ensures
        ({
            let k = best_mode(info.modes@);
            let (state, action) = after(
                selection(connector, info).0,
                GbmEvent::EncoderRead(Some(crtc)),
            );
            &&& is_best_mode(info.modes@, k)
            &&& state matches GbmState::Done(context) && context.connector == connector
                && context.mode == k && is_best_mode(info.modes@, context.mode as int) && info.current_encoder == Some(context.encoder)
                && context.crtc == crtc && context.width == info.modes@[k].width && context.height
                == info.modes@[k].height
            &&& action == GbmAction::CreateSurface(
                surface_of(info.modes@[k].width, info.modes@[k].height),
            )
        }),
{
    best_mode_exists(info.modes@);
    assert(info.modes.len() == info.modes@.len());
}

/// What it takes for a mode to be the one to use. Where a mode has the bit of preference, the one
/// to use has it, and no mode before it has. Otherwise none is wider, none as wide is higher, and
/// no later one is of the same size.
pub proof fn best_mode_in_numbers(modes: Seq<ModeInfo>, k: int, i: int)
    requires
        is_best_mode(modes, k),
        0 <= i < modes.len(),
    ensures
        0 <= k < modes.len(),
        modes[i].mode_type & 8 == 8 ==> modes[k].mode_type & 8 == 8 && k <= i,
        modes[k].mode_type & 8 != 8 ==> {
            &&& modes[i].width <= modes[k].width
            &&& modes[i].width == modes[k].width ==> modes[i].height <= modes[k].height
            &&& modes[i].width == modes[k].width && modes[i].height == modes[k].height ==> i <= k
        },
{
    if modes[i].mode_type & 8 == 8 {
        assert(modes[i].is_preferred());
        assert(has_preferred(modes));
    }
    if modes[k].mode_type & 8 != 8 {
        assert(!modes[k].is_preferred());
        assert(!has_preferred(modes));
        if k < i {
            assert(!modes[k].no_larger_than(modes[i]));
        }
        if i < k {
            assert(modes[i].no_larger_than(modes[k]));
        }
    }
}

/// Whether a search goes on is a matter of the connector alone. One that answered, that has a
/// screen, and whose screen offers a mode is chosen: where the best mode has a name in UTF-8 and
/// the connector has an encoder, that mode and that encoder are used; a name that is not UTF-8 and
/// a missing encoder, and nothing else, end the search.
pub proof fn usable_connector_is_chosen(next: usize, total: usize, info: ConnectorInfo, k: int)
    requires
        next < total,
        info.connected,
        info.modes@.len() > 0,
        is_best_mode(info.modes@, k),
    ensures
        ({
            let mode = info.modes@[k];
            let (state, action) = after(
                GbmState::Probing { next, total },
                GbmEvent::Probed(Some(info)),
            );
            &&& can_happen(GbmState::Probing { next, total }, GbmEvent::Probed(Some(info)))
            &&& !vstd::utf8::valid_utf8(mode.name@) ==> state is Failed && action
                == GbmAction::RejectName(k as usize)
            &&& vstd::utf8::valid_utf8(mode.name@) && info.current_encoder is None ==> state
                is Failed && action == GbmAction::Fail(WindowError::NoCurrentEncoder)
            &&& vstd::utf8::valid_utf8(mode.name@) && info.current_encoder is Some ==> {
                let encoder = info.current_encoder->0;
                &&& action == GbmAction::ReadEncoder(encoder)
                &&& state == GbmState::Selected {
                    connector: next,
                    mode: k as usize,
                    width: mode.width,
                    height: mode.height,
                    encoder,
                }
            }
            &&& action == GbmAction::Fail(WindowError::NoCurrentEncoder) ==> info.current_encoder
                is None
            &&& action != GbmAction::Fail(WindowError::NoConnectedConnector)
        }),
{
    best_mode_is_unique(info.modes@, k, k);
}

/// A connector that did not answer, that has no screen, or whose screen offers no mode is passed
/// over, and the next one is asked; only after the last one the search fails.
pub proof fn unusable_connector_is_passed_over(
    next: usize,
    total: usize,
    report: Option<ConnectorInfo>,
)
    requires
        next < total,
        report matches Some(info) ==> !info.connected || info.modes@.len() == 0,
    ensures
        ({
            let before = GbmState::Probing { next, total };
            let (state, action) = after(before, GbmEvent::Probed(report));
            &&& can_happen(before, GbmEvent::Probed(report))
            &&& next + 1 < total ==> (state matches GbmState::Probing { next: n, total: t } && n
                == next + 1 && t == total && action == GbmAction::Probe(n))
            &&& next + 1 == total ==> state is Failed && action == GbmAction::Fail(
                WindowError::NoConnectedConnector,
            )
        }),
{
}

/// A search starts with the first connector, and fails at once where there is none.
pub proof fn search_starts_with_first_connector(total: usize)
    ensures
        total == 0 ==> search_start(total) == (
            GbmState::Failed,
            GbmAction::Fail(WindowError::NoConnectedConnector),
        ),
        total > 0 ==> search_start(total) == (
            GbmState::Probing { next: 0, total },
            GbmAction::Probe(0),
        ),
{
}

/// What was chosen is kept when the encoder is read: with a CRTC the search ends well, and the
/// surface is as wide and as high as the mode, can be drawn on, and can be shown.
pub proof fn choice_is_kept(
    connector: usize,
    mode: usize,
    width: u16,
    height: u16,
    encoder: u32,
    crtc: u32,
)
    ensures
        ({
            let chosen = GbmState::Selected { connector, mode, width, height, encoder };
            let (state, action) = after(chosen, GbmEvent::EncoderRead(Some(crtc)));
            &&& can_happen(chosen, GbmEvent::EncoderRead(Some(crtc)))
            &&& state matches GbmState::Done(c) && c.connector == connector && c.mode == mode
                && c.encoder == encoder && c.crtc == crtc && c.width == width && c.height == height
            &&& action matches GbmAction::CreateSurface(s) && s.width == width && s.height
                == height && s.format is Xrgb8888 && s.scanout && s.rendering
            &&& can_happen(chosen, GbmEvent::EncoderRead(None))
            &&& after(chosen, GbmEvent::EncoderRead(None)) == (
                GbmState::Failed,
                GbmAction::Fail(WindowError::NoCrtc),
            )
            &&& can_happen(chosen, GbmEvent::EncoderRefused)
            &&& after(chosen, GbmEvent::EncoderRefused) == (GbmState::Failed, GbmAction::Abort)
        }),
{
}

/// The errors say what is missing.
pub proof fn window_errors_in_words()
    ensures
        WindowError::NoConnectedConnector.text() == "no connected connector found"@,
        WindowError::NoCurrentEncoder.text() == "no current encoder"@,
        WindowError::NoCrtc.text() == "no crtc on encoder"@,
{
}

} // verus!
