//! What a changed file does: splits are parsed and handed to the timer, a
//! layout is parsed (LiveSplit One's JSON first, the desktop LiveSplit's XML
//! after), an auto splitter is unloaded and loaded again. A file that fails
//! leaves what was active before untouched.

use vstd::prelude::*;

verus! {

#[verifier::external_type_specification]
#[verifier::external_body]
pub struct ExRun(livesplit_core::Run);

#[verifier::external_type_specification]
#[verifier::external_body]
pub struct ExSegment(livesplit_core::Segment);

#[verifier::external_type_specification]
#[verifier::external_body]
pub struct ExTimer(livesplit_core::Timer);

#[verifier::external_type_specification]
#[verifier::external_body]
pub struct ExLayout(livesplit_core::Layout);

#[verifier::external_type_specification]
#[verifier::external_body]
pub struct ExLayoutSettings(livesplit_core::layout::LayoutSettings);

#[verifier::external_type_specification]
#[verifier::external_body]
pub struct ExRuntime(livesplit_core::auto_splitting::Runtime);

#[verifier::external_type_specification]
#[verifier::external_body]
pub struct ExScriptError(livesplit_core::auto_splitting::Error);

/// The names of a run's segments, in order: what a run holds as far as the
/// timer is concerned.
pub uninterp spec fn segment_names(run: livesplit_core::Run) -> Seq<Seq<char>>;

/// Relies on `Run::new` of livesplit-core: a run without segments.
pub assume_specification[ livesplit_core::Run::new ]() -> (r: livesplit_core::Run)
    ensures
        segment_names(r).len() == 0,
;

/// Relies on `Run::push_segment` of livesplit-core: the segment is added
/// after the others.
pub assume_specification[ livesplit_core::Run::push_segment ](
    run: &mut livesplit_core::Run,
    segment: livesplit_core::Segment,
)
    ensures
        segment_names(*final(run)).len() == segment_names(*old(run)).len() + 1,
        segment_names(*final(run)).take(segment_names(*old(run)).len() as int) == segment_names(
            *old(run),
        ),
;

/// Relies on `Run::is_empty` of livesplit-core: whether the run has no
/// segment.
pub assume_specification[ livesplit_core::Run::is_empty ](run: &livesplit_core::Run) -> (r: bool)
    ensures
        r == (segment_names(*run).len() == 0),
;

/// Relies on `Layout::from_settings` of livesplit-core: the layout that the
/// decoded settings describe.
pub assume_specification[ livesplit_core::Layout::from_settings ](
    layout_settings: livesplit_core::layout::LayoutSettings,
) -> livesplit_core::Layout;

/// Relies on `Segment::new` of livesplit-core: a segment with that name.
#[verifier::external_body]
fn named_segment(name: &str) -> (r: livesplit_core::Segment) {
    livesplit_core::Segment::new(name)
}

/// Relies on `run::parser::composite::parse` of livesplit-core: tries every
/// splits format it knows; `path` lets it load the images that the file
/// refers to.
#[verifier::external_body]
fn decode_run(bytes: &[u8], path: &str) -> (r: Option<livesplit_core::Run>) {
    livesplit_core::run::parser::composite::parse(bytes, Some(std::path::Path::new(path)))
        .ok()
        .map(|parsed| parsed.run)
}

/// Relies on `Timer::replace_run` of livesplit-core, which refuses a run
/// without segments before it touches the timer, and takes any other.
#[verifier::external_body]
fn install_run(timer: &mut livesplit_core::Timer, run: livesplit_core::Run) -> (r: bool)
    ensures
        r == (segment_names(run).len() > 0),
        !r ==> *final(timer) == *old(timer),
{
    timer.replace_run(run, true).is_ok()
}

/// Whether `LayoutSettings::from_json` of livesplit-core decodes the bytes.
pub uninterp spec fn json_layout_parses(bytes: Seq<u8>) -> bool;

/// Whether the bytes are text that `layout::parser::parse` of livesplit-core
/// takes.
pub uninterp spec fn legacy_layout_parses(bytes: Seq<u8>) -> bool;

/// Relies on `LayoutSettings::from_json` of livesplit-core: a layout of
/// LiveSplit One's JSON format, decoded from the bytes alone.
#[verifier::external_body]
fn decode_layout_settings(bytes: &[u8]) -> (r: Option<livesplit_core::layout::LayoutSettings>)
    ensures
        r is Some == json_layout_parses(bytes@),
{
    livesplit_core::layout::LayoutSettings::from_json(bytes).ok()
}

/// Relies on `layout::parser::parse` of livesplit-core: a layout of the
/// desktop LiveSplit's format, which is text, parsed from the text alone.
#[verifier::external_body]
fn decode_legacy_layout(bytes: &[u8]) -> (r: Option<livesplit_core::Layout>)
    ensures
        r is Some == legacy_layout_parses(bytes@),
{
    let text = std::str::from_utf8(bytes).ok()?;
    livesplit_core::layout::parser::parse(text).ok()
}

/// Relies on `Runtime::unload_script_blocking` of livesplit-core, which
/// waits until no auto splitter is loaded; none loaded is no error.
#[verifier::external_body]
fn unload_script(runtime: &livesplit_core::auto_splitting::Runtime) -> (r: Result<
    (),
    livesplit_core::auto_splitting::Error,
>) {
    runtime.unload_script_blocking()
}

/// Relies on `Runtime::load_script_blocking` of livesplit-core, which waits
/// until the module at `path` is loaded or has failed to load.
#[verifier::external_body]
fn load_script(runtime: &livesplit_core::auto_splitting::Runtime, path: &str) -> (r: Result<
    (),
    livesplit_core::auto_splitting::Error,
>) {
    runtime.load_script_blocking(std::path::PathBuf::from(path))
}

/// Why a changed file was not applied.
pub enum ReloadFailure {
    /// The file could not be read or parsed, or holds no segment.
    Unreadable,
    /// The auto splitter could not be loaded.
    ScriptFailed(livesplit_core::auto_splitting::Error),
}

/// The result of applying a changed file.
pub enum ReloadOutcome {
    Applied,
    Failed(ReloadFailure),
}

/// The run a timer starts with: one segment, named "Time".
pub fn default_run() -> (r: livesplit_core::Run)
    ensures
        segment_names(r).len() == 1,
{
    let mut run = livesplit_core::Run::new();
    run.push_segment(named_segment("Time"));
    run
}

/// Keeps a decoded run only where it has segments: a run without segments
/// cannot be timed.
pub fn accept_run(decoded: Option<livesplit_core::Run>) -> (r: Option<livesplit_core::Run>)
    ensures
        decoded is Some && segment_names(decoded->0).len() > 0 ==> r == decoded,
        decoded is None || segment_names(decoded->0).len() == 0 ==> r is None,
{
    match decoded {
        Some(run) => {
            if run.is_empty() {
                None
            } else {
                Some(run)
            }
        },
        None => None,
    }
}

/// Parses the splits file at `path`, whose contents are `bytes`. An empty
/// path gives no run; otherwise the decoded run goes through `accept_run`.
pub fn parse_run(bytes: &[u8], path: &str) -> (r: Option<livesplit_core::Run>)
    ensures
        path@.len() == 0 ==> r is None,
        r is Some ==> segment_names(r->0).len() > 0,
{
    if path.is_empty() {
        return None;
    }
    accept_run(decode_run(bytes, path))
}

/// Parses the layout file at `path`, whose contents are `bytes`: as LiveSplit
/// One's format first, then as the desktop LiveSplit's. An empty path gives
/// no layout.
pub fn parse_layout(bytes: &[u8], path: &str) -> (r: Option<livesplit_core::Layout>)
    ensures
        r is Some == (path@.len() > 0 && (json_layout_parses(bytes@) || legacy_layout_parses(
            bytes@,
        ))),
{
    if path.is_empty() {
        return None;
    }
    match decode_layout_settings(bytes) {
        Some(settings) => Some(livesplit_core::Layout::from_settings(settings)),
        None => decode_legacy_layout(bytes),
    }
}

/// Hands a parsed run to the timer. Where there is none, or the timer
/// refuses it, the timer is left exactly as it was.
pub fn apply_run(timer: &mut livesplit_core::Timer, parsed: Option<livesplit_core::Run>) -> (r:
    ReloadOutcome)
    ensures
        (r is Applied) == (parsed is Some && segment_names(parsed->0).len() > 0),
        r is Failed ==> r matches ReloadOutcome::Failed(ReloadFailure::Unreadable),
        r is Failed ==> *final(timer) == *old(timer),
        parsed is None ==> *final(timer) == *old(timer),
{
    match parsed {
        Some(run) => {
            if install_run(timer, run) {
                ReloadOutcome::Applied
            } else {
                ReloadOutcome::Failed(ReloadFailure::Unreadable)
            }
        },
        None => ReloadOutcome::Failed(ReloadFailure::Unreadable),
    }
}

/// Makes the splits file at `path` the timer's run: `apply_run` of what
/// `parse_run` gives. Where it fails, the timer is left exactly as it was.
pub fn reload_splits(timer: &mut livesplit_core::Timer, bytes: &[u8], path: &str) -> (r:
    ReloadOutcome)
    ensures
        r is Failed ==> *final(timer) == *old(timer),
        path@.len() == 0 ==> r matches ReloadOutcome::Failed(ReloadFailure::Unreadable),
        r is Applied || r matches ReloadOutcome::Failed(ReloadFailure::Unreadable),
{
    let parsed = parse_run(bytes, path);
    apply_run(timer, parsed)
}

/// Makes a parsed layout the active one; where there is none, the active
/// layout is left exactly as it was.
pub fn apply_layout(layout: &mut livesplit_core::Layout, parsed: Option<livesplit_core::Layout>) -> (r:
    ReloadOutcome)
    ensures
        parsed is Some ==> r is Applied && *final(layout) == parsed->0,
        parsed is None ==> *final(layout) == *old(layout),
        parsed is None ==> r matches ReloadOutcome::Failed(ReloadFailure::Unreadable),
{
    match parsed {
        Some(l) => {
            *layout = l;
            ReloadOutcome::Applied
        },
        None => ReloadOutcome::Failed(ReloadFailure::Unreadable),
    }
}

/// Makes the layout file at `path` the active layout. It is applied exactly
/// where one of the two formats parses; otherwise the active layout is left
/// exactly as it was.
pub fn reload_layout(layout: &mut livesplit_core::Layout, bytes: &[u8], path: &str) -> (r:
    ReloadOutcome)
    ensures
        (r is Applied) == (path@.len() > 0 && (json_layout_parses(bytes@) || legacy_layout_parses(
            bytes@,
        ))),
        r is Failed ==> *final(layout) == *old(layout),
        r is Failed ==> r matches ReloadOutcome::Failed(ReloadFailure::Unreadable),
{
    let parsed = parse_layout(bytes, path);
    apply_layout(layout, parsed)
}

/// The outcome of reloading an auto splitter, from what the unload and the
/// load gave: the load decides, whatever the unload reported.
pub fn script_outcome(
    unloaded: Result<(), livesplit_core::auto_splitting::Error>,
    loaded: Result<(), livesplit_core::auto_splitting::Error>,
) -> (r: ReloadOutcome)
    ensures
        loaded is Ok ==> r is Applied,
        loaded is Err ==> (r matches ReloadOutcome::Failed(ReloadFailure::ScriptFailed(e)) && e
            == loaded->Err_0),
{
    match loaded {
        Ok(()) => ReloadOutcome::Applied,
        Err(e) => ReloadOutcome::Failed(ReloadFailure::ScriptFailed(e)),
    }
}

/// Loads the auto splitter at `path` in place of the current one. The
/// current one is unloaded first, whatever that reports, so that a module
/// that fails to load leaves none loaded; the outcome is `script_outcome`
/// of the two.
pub fn reload_autosplitter(runtime: &livesplit_core::auto_splitting::Runtime, path: &str) -> (r:
    ReloadOutcome)
    ensures
        r is Applied || r matches ReloadOutcome::Failed(ReloadFailure::ScriptFailed(_)),
{
    let unloaded = unload_script(runtime);
    let loaded = load_script(runtime, path);
    script_outcome(unloaded, loaded)
}

} // verus!
