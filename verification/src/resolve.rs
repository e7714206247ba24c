//! Resolution of the bridge shared library and its symbol table. The
//! filesystem itself is out of the library's reach, so the caller reports
//! which of the candidate paths exist; every decision — the strict
//! priority order, failing closed, never accepting a partial symbol
//! binding — is made here.

use vstd::prelude::*;

use crate::error::{SpeechError, SpeechErrorKind, SpeechErrorModel};
use crate::wire::views_of;

verus! {

/// The file name of the bridge shared library.
pub open spec fn dylib_file_name() -> Seq<char> {
    "libGlimpseSpeechFluidBridge.dylib"@
}

/// The candidate paths relative to the running executable's directory:
/// the directory itself, a nested frameworks directory, and a nested
/// resources directory, in that order.
pub open spec fn candidates_spec(exe_parent: Option<Seq<char>>) -> Seq<Seq<char>> {
    match exe_parent {
        None => Seq::empty(),
        Some(p) => seq![
            p + "/"@ + dylib_file_name(),
            p + "/../Frameworks/"@ + dylib_file_name(),
            p + "/../Resources/"@ + dylib_file_name(),
        ],
    }
}

/// Build the executable-relative candidate list.
pub fn dylib_candidates(exe_parent: Option<&str>) -> (r: Vec<String>)
    ensures
        views_of(r@) == candidates_spec(
            match exe_parent {
                None => None,
                Some(p) => Some(p@),
            },
        ),
{
    let mut out: Vec<String> = Vec::new();
    let p = match exe_parent {
        None => {
            proof {
                assert(views_of(out@) =~= Seq::<Seq<char>>::empty());
            }
            return out;
        },
        Some(p) => p,
    };
    let mut a = String::new();
    a.append(p);
    a.append("/");
    a.append("libGlimpseSpeechFluidBridge.dylib");
    out.push(a);
    let mut b = String::new();
    b.append(p);
    b.append("/../Frameworks/");
    b.append("libGlimpseSpeechFluidBridge.dylib");
    out.push(b);
    let mut c = String::new();
    c.append(p);
    c.append("/../Resources/");
    c.append("libGlimpseSpeechFluidBridge.dylib");
    out.push(c);
    proof {
        assert(views_of(out@) =~= candidates_spec(Some(exe_parent->0@)));
    }
    out
}

/// The first index whose flag is set, or the length when none is.
pub open spec fn first_existing(exists_flags: Seq<bool>) -> int
    decreases exists_flags.len(),
{
    if exists_flags.len() == 0 {
        0
    } else if exists_flags[0] {
        0
    } else {
        1 + first_existing(exists_flags.drop_first())
    }
}

proof fn lemma_first_existing(exists_flags: Seq<bool>, i: int)
    requires
        0 <= i <= exists_flags.len(),
        forall|k: int| 0 <= k < i ==> !exists_flags[k],
        i < exists_flags.len() ==> exists_flags[i],
    ensures
        first_existing(exists_flags) == i,
    decreases i,
{
    if i == 0 {
    } else {
        let t = exists_flags.drop_first();
        assert(forall|k: int| 0 <= k < i - 1 ==> !(#[trigger] t[k]));
        assert(i - 1 < t.len() ==> t[i - 1]);
        lemma_first_existing(t, i - 1);
    }
}

/// The guidance given when no mechanism produced a library path.
pub open spec fn dylib_not_found_msg() -> Seq<char> {
    "Fluid bridge dylib not found. Bundle libGlimpseSpeechFluidBridge.dylib near your app binary (or in ../Frameworks/../Resources), set GLIMPSE_FLUID_BRIDGE_DYLIB, or provide FluidModelParams::dylib_path"@
}

/// What resolution returns: an explicit path is taken only if it exists
/// and otherwise fails the whole resolution; the environment override is
/// used only if it exists; otherwise the first existing candidate wins;
/// with nothing left, resolution fails closed with the guidance message.
pub open spec fn resolve_spec(
    explicit: Option<Seq<char>>,
    explicit_exists: bool,
    env_override: Option<Seq<char>>,
    env_exists: bool,
    candidates: Seq<Seq<char>>,
    candidates_exist: Seq<bool>,
) -> Result<Seq<char>, SpeechErrorModel> {
    if explicit is Some {
        if explicit_exists {
            Ok(explicit->0)
        } else {
            Err(
                SpeechError::model(
                    SpeechErrorKind::Load,
                    "Fluid bridge dylib path does not exist: "@ + explicit->0,
                ),
            )
        }
    } else if env_override is Some && env_exists {
        Ok(env_override->0)
    } else if first_existing(candidates_exist) < candidates.len() {
        Ok(candidates[first_existing(candidates_exist)])
    } else {
        Err(SpeechError::model(SpeechErrorKind::Load, dylib_not_found_msg()))
    }
}

/// Resolve the one filesystem path the bridge library is loaded from.
/// `candidates_exist[i]` reports whether `candidates[i]` exists on disk,
/// as `explicit_exists` and `env_exists` do for their paths.
pub fn resolve_bridge_dylib_path(
    explicit: Option<&str>,
    explicit_exists: bool,
    env_override: Option<&str>,
    env_exists: bool,
    candidates: &Vec<String>,
    candidates_exist: &Vec<bool>,
) -> (r: Result<String, SpeechError>)
    requires
        candidates_exist@.len() == candidates@.len(),
    ensures
        (match r {
            Ok(p) => Ok::<Seq<char>, SpeechErrorModel>(p@),
            Err(e) => Err(e@),
        }) == resolve_spec(
            match explicit {
                None => None,
                Some(p) => Some(p@),
            },
            explicit_exists,
            match env_override {
                None => None,
                Some(p) => Some(p@),
            },
            env_exists,
            views_of(candidates@),
            candidates_exist@,
        ),
{
    match explicit {
        Some(path) => {
            if explicit_exists {
                return Ok(path.to_owned());
            }
            let mut m = String::new();
            m.append("Fluid bridge dylib path does not exist: ");
            m.append(path);
            return Err(SpeechError::new(SpeechErrorKind::Load, m));
        },
        None => {},
    }
    match env_override {
        Some(path) => {
            if env_exists {
                return Ok(path.to_owned());
            }
        },
        None => {},
    }
    let n = candidates.len();
    let mut i: usize = 0;
    while i < n
        invariant
            0 <= i <= n,
            n == candidates@.len(),
            candidates_exist@.len() == candidates@.len(),
            explicit is None,
            env_override is None || !env_exists,
            forall|k: int| 0 <= k < i ==> !candidates_exist@[k],
        decreases n - i,
    {
        if candidates_exist[i] {
            let found = candidates[i].clone();
            proof {
                lemma_first_existing(candidates_exist@, i as int);
                assert(views_of(candidates@).len() == candidates@.len());
                assert(views_of(candidates@)[i as int] == candidates@[i as int]@);
                assert(found@ == candidates@[i as int]@);
            }
            return Ok(found);
        }
        i = i + 1;
    }
    proof {
        lemma_first_existing(candidates_exist@, n as int);
    }
    let mut m = String::new();
    m.append(
        "Fluid bridge dylib not found. Bundle libGlimpseSpeechFluidBridge.dylib near your app binary (or in ../Frameworks/../Resources), set GLIMPSE_FLUID_BRIDGE_DYLIB, or provide FluidModelParams::dylib_path",
    );
    Err(SpeechError::new(SpeechErrorKind::Load, m))
}

/// The fixed names of the four required foreign entries.
pub open spec fn create_symbol_name() -> Seq<char> {
    "glimpse_fluid_create"@
}

pub open spec fn destroy_symbol_name() -> Seq<char> {
    "glimpse_fluid_destroy"@
}

pub open spec fn transcribe_symbol_name() -> Seq<char> {
    "glimpse_fluid_transcribe_wav"@
}

pub open spec fn free_buffer_symbol_name() -> Seq<char> {
    "glimpse_fluid_free_buffer"@
}

/// What the symbol-table gate returns: the first absent symbol, in the
/// fixed binding order, makes the whole load fatal; a partial binding is
/// never accepted.
pub open spec fn symbol_table_spec(
    has_create: bool,
    has_destroy: bool,
    has_transcribe: bool,
    has_free_buffer: bool,
) -> Result<(), SpeechErrorModel> {
    if !has_create {
        Err(
            SpeechError::model(
                SpeechErrorKind::Load,
                "missing Fluid bridge symbol "@ + create_symbol_name(),
            ),
        )
    } else if !has_destroy {
        Err(
            SpeechError::model(
                SpeechErrorKind::Load,
                "missing Fluid bridge symbol "@ + destroy_symbol_name(),
            ),
        )
    } else if !has_transcribe {
        Err(
            SpeechError::model(
                SpeechErrorKind::Load,
                "missing Fluid bridge symbol "@ + transcribe_symbol_name(),
            ),
        )
    } else if !has_free_buffer {
        Err(
            SpeechError::model(
                SpeechErrorKind::Load,
                "missing Fluid bridge symbol "@ + free_buffer_symbol_name(),
            ),
        )
    } else {
        Ok(())
    }
}

/// Gate the foreign-function table: all four entries must have resolved,
/// else the load fails naming the first absent symbol.
pub fn check_symbol_table(
    has_create: bool,
    has_destroy: bool,
    has_transcribe: bool,
    has_free_buffer: bool,
) -> (r: Result<(), SpeechError>)
    ensures
        r is Ok <==> (has_create && has_destroy && has_transcribe && has_free_buffer),
        (match r {
            Ok(u) => Ok::<(), SpeechErrorModel>(u),
            Err(e) => Err(e@),
        }) == symbol_table_spec(has_create, has_destroy, has_transcribe, has_free_buffer),
{
    if !has_create {
        let mut m = String::new();
        m.append("missing Fluid bridge symbol ");
        m.append("glimpse_fluid_create");
        Err(SpeechError::new(SpeechErrorKind::Load, m))
    } else if !has_destroy {
        let mut m = String::new();
        m.append("missing Fluid bridge symbol ");
        m.append("glimpse_fluid_destroy");
        Err(SpeechError::new(SpeechErrorKind::Load, m))
    } else if !has_transcribe {
        let mut m = String::new();
        m.append("missing Fluid bridge symbol ");
        m.append("glimpse_fluid_transcribe_wav");
        Err(SpeechError::new(SpeechErrorKind::Load, m))
    } else if !has_free_buffer {
        let mut m = String::new();
        m.append("missing Fluid bridge symbol ");
        m.append("glimpse_fluid_free_buffer");
        Err(SpeechError::new(SpeechErrorKind::Load, m))
    } else {
        Ok(())
    }
}

} // verus!
