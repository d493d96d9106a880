use vstd::prelude::*;

use crate::game::GameFormat;
use crate::paths::{
    find_executable, join_path, joined, parent_dir, parent_of, replace_extension,
    with_extension_of,
};

verus! {

/// File name of the encoder executable.
pub const ENCODER_EXECUTABLE: &'static str = "radvideo64.exe";

/// Extension given to a derived output path.
pub const OUTPUT_EXTENSION: &'static str = "bik";

/// Why a launch request was rejected.
#[derive(Debug)]
pub enum ValidationError {
    /// No encoder folder was given and the encoder is not on the search path.
    EncoderNotFound,
    /// The resolved folder does not hold the encoder executable.
    EncoderNotInFolder { folder: String },
    /// The input file could not be opened for reading.
    InputNotFound { path: String },
}

/// The mathematical value of a [`ValidationError`].
pub enum Failure {
    EncoderNotFound,
    EncoderNotInFolder(Seq<char>),
    InputNotFound(Seq<char>),
}

impl View for ValidationError {
    type V = Failure;

    open spec fn view(&self) -> Failure {
        match self {
            ValidationError::EncoderNotFound => Failure::EncoderNotFound,
            ValidationError::EncoderNotInFolder { folder } => Failure::EncoderNotInFolder(folder@),
            ValidationError::InputNotFound { path } => Failure::InputNotFound(path@),
        }
    }
}

/// The options of one run, as the user gave them.
pub struct LaunchRequest {
    /// The video to convert.
    pub infile: String,
    /// The game the video is for.
    pub format: GameFormat,
    /// Whether an existing output file may be replaced without asking.
    pub overwrite: bool,
    /// The folder holding the encoder, if the user named one.
    pub radvideo_path: Option<String>,
    /// Where to write the result, if the user named a place.
    pub outfile: Option<String>,
}

/// The mathematical value of a [`LaunchRequest`].
pub struct RequestModel {
    pub infile: Seq<char>,
    pub format: GameFormat,
    pub overwrite: bool,
    pub radvideo_path: Option<Seq<char>>,
    pub outfile: Option<Seq<char>>,
}

/// The text of an optional string.
pub open spec fn text_of(o: Option<String>) -> Option<Seq<char>> {
    match o {
        Some(s) => Some(s@),
        None => None,
    }
}

impl View for LaunchRequest {
    type V = RequestModel;

    open spec fn view(&self) -> RequestModel {
        RequestModel {
            infile: self.infile@,
            format: self.format,
            overwrite: self.overwrite,
            radvideo_path: text_of(self.radvideo_path),
            outfile: text_of(self.outfile),
        }
    }
}

/// A launch request whose every part has been checked: the encoder folder
/// holds the encoder and the input file could be opened.
pub struct ResolvedConfiguration {
    format: GameFormat,
    overwrite: bool,
    radvideo_path: String,
    outfile: String,
}

/// The mathematical value of a [`ResolvedConfiguration`].
pub struct ConfigModel {
    pub format: GameFormat,
    pub overwrite: bool,
    pub radvideo_path: Seq<char>,
    pub outfile: Seq<char>,
}

impl View for ResolvedConfiguration {
    type V = ConfigModel;

    closed spec fn view(&self) -> ConfigModel {
        ConfigModel {
            format: self.format,
            overwrite: self.overwrite,
            radvideo_path: self.radvideo_path@,
            outfile: self.outfile@,
        }
    }
}

/// The text of a folder lookup's outcome.
pub open spec fn folder_outcome(r: Result<String, ValidationError>) -> Result<Seq<char>, Failure> {
    match r {
        Ok(d) => Ok(d@),
        Err(e) => Err(e@),
    }
}

/// The value of a configuration outcome.
pub open spec fn config_outcome(r: Result<ResolvedConfiguration, ValidationError>) -> Result<
    ConfigModel,
    Failure,
> {
    match r {
        Ok(c) => Ok(c@),
        Err(e) => Err(e@),
    }
}

/// The encoder folder: the one the user named, else the directory of the
/// encoder found on the search path.
pub open spec fn folder_from(explicit: Option<Seq<char>>, found_exe: Option<Seq<char>>) -> Result<
    Seq<char>,
    Failure,
> {
    match explicit {
        Some(d) => Ok(d),
        None => match found_exe {
            Some(exe) => match parent_of(exe) {
                Some(d) => Ok(d),
                None => Err(Failure::EncoderNotFound),
            },
            None => Err(Failure::EncoderNotFound),
        },
    }
}

/// A folder passes when the encoder was found in it.
pub open spec fn encoder_check(folder: Seq<char>, present: bool) -> Result<Seq<char>, Failure> {
    if present {
        Ok(folder)
    } else {
        Err(Failure::EncoderNotInFolder(folder))
    }
}

/// The first two steps: resolve the folder, then check that it holds the
/// encoder.
pub open spec fn encoder_stage(
    explicit: Option<Seq<char>>,
    found_exe: Option<Seq<char>>,
    present: bool,
) -> Result<Seq<char>, Failure> {
    match folder_from(explicit, found_exe) {
        Ok(d) => encoder_check(d, present),
        Err(e) => Err(e),
    }
}

/// The output path: the one the user named, else the input path with its
/// extension replaced.
pub open spec fn output_path(infile: Seq<char>, outfile: Option<Seq<char>>) -> Seq<char> {
    match outfile {
        Some(o) => o,
        None => with_extension_of(infile, OUTPUT_EXTENSION@),
    }
}

/// The last steps, once the encoder folder is known: the input must be
/// readable, and the output path is resolved.
pub open spec fn configuration_from(req: RequestModel, folder: Seq<char>, input_readable: bool) -> Result<
    ConfigModel,
    Failure,
> {
    if input_readable {
        Ok(
            ConfigModel {
                format: req.format,
                overwrite: req.overwrite,
                radvideo_path: folder,
                outfile: output_path(req.infile, req.outfile),
            },
        )
    } else {
        Err(Failure::InputNotFound(req.infile))
    }
}

/// The whole validation of a request, given what the search path gave, whether
/// the encoder was found in the resolved folder and whether the input opened.
pub open spec fn validation(
    req: RequestModel,
    found_exe: Option<Seq<char>>,
    encoder_present: bool,
    input_readable: bool,
) -> Result<ConfigModel, Failure> {
    match encoder_stage(req.radvideo_path, found_exe, encoder_present) {
        Ok(d) => configuration_from(req, d, input_readable),
        Err(e) => Err(e),
    }
}

/// Picks the encoder folder from the folder the user named, if any, and
/// otherwise from the path at which the encoder was found on the search path.
pub fn resolve_encoder_folder(explicit: Option<String>, found_exe: Option<String>) -> (r: Result<
    String,
    ValidationError,
>)
    ensures
        folder_outcome(r) == folder_from(text_of(explicit), text_of(found_exe)),
{
    match explicit {
        Some(d) => Ok(d),
        None => match found_exe {
            Some(exe) => match parent_dir(exe.as_str()) {
                Some(d) => Ok(d),
                None => Err(ValidationError::EncoderNotFound),
            },
            None => Err(ValidationError::EncoderNotFound),
        },
    }
}

/// Accepts the folder when the encoder was found in it.
pub fn check_encoder_in_folder(folder: String, present: bool) -> (r: Result<String, ValidationError>)
    ensures
        folder_outcome(r) == encoder_check(folder@, present),
{
    if present {
        Ok(folder)
    } else {
        Err(ValidationError::EncoderNotInFolder { folder })
    }
}

/// The path at which the encoder executable is looked for in a folder.
pub fn encoder_path_in(folder: &String) -> (r: String)
    ensures
        r@ == joined(folder@, ENCODER_EXECUTABLE@),
{
    join_path(folder.as_str(), ENCODER_EXECUTABLE)
}

/// The output path: the one the user named, verbatim, else the input path
/// with its extension replaced by the output extension.
pub fn resolve_output_path(infile: &String, outfile: Option<String>) -> (r: String)
    ensures
        r@ == output_path(infile@, text_of(outfile)),
{
    match outfile {
        Some(o) => o,
        None => {
            proof {
                reveal_strlit("bik");
            }
            replace_extension(infile.as_str(), OUTPUT_EXTENSION)
        },
    }
}

/// The value of a run's result.
pub open spec fn launch_outcome<T>(r: Result<(T, ResolvedConfiguration), ValidationError>) -> Result<
    ConfigModel,
    Failure,
> {
    match r {
        Ok(p) => Ok(p.1@),
        Err(e) => Err(e@),
    }
}

/// The lookups of a run: without a folder from the user, the encoder's name
/// is looked up and gave `found`; once a folder is resolved, the encoder's
/// path in it is looked up and gave `present`.
pub open spec fn lookups_made<L: Fn(&str) -> Option<String>>(
    lookup: L,
    explicit: Option<Seq<char>>,
    found: Option<String>,
    present: Option<String>,
) -> bool {
    &&& explicit is None ==> lookup.ensures((ENCODER_EXECUTABLE,), found)
    &&& match folder_from(explicit, text_of(found)) {
        Ok(d) => exists|p: &str| p@ == joined(d, ENCODER_EXECUTABLE@) && #[trigger] lookup.ensures((p,), present),
        Err(_) => true,
    }
}

/// The rest of a run, given what the lookups gave: the input is opened only
/// once the encoder checks pass, and the result is what `validation` gives,
/// with the opened input beside the configuration.
pub open spec fn run_follows<T, O: FnOnce(&str) -> Option<T>>(
    open_input: O,
    req: RequestModel,
    found: Option<String>,
    present: Option<String>,
    opened: Option<T>,
    r: Result<(T, ResolvedConfiguration), ValidationError>,
) -> bool {
    &&& encoder_stage(req.radvideo_path, text_of(found), present is Some) is Ok ==> exists|p: &str|
        p@ == req.infile && #[trigger] open_input.ensures((p,), opened)
    &&& launch_outcome(r) == validation(req, text_of(found), present is Some, opened is Some)
    &&& r matches Ok(pair) ==> opened == Some(pair.0)
}

/// Validates a request with the given executable lookup and input opener.
/// The lookup is asked for the encoder's name when no folder was given, then
/// for the encoder's path in the resolved folder; the input is opened only
/// after both checks pass. The first failing step decides the error.
pub fn precheck_with<T, L, O>(req: LaunchRequest, lookup: L, open_input: O) -> (r: Result<
    (T, ResolvedConfiguration),
    ValidationError,
>) where L: Fn(&str) -> Option<String>, O: FnOnce(&str) -> Option<T>
    requires
        forall|s: &str| #[trigger] lookup.requires((s,)),
        forall|s: &str| #[trigger] open_input.requires((s,)),
    ensures
        exists|found: Option<String>, present: Option<String>, opened: Option<T>|
            lookups_made(lookup, req@.radvideo_path, found, present) && #[trigger] run_follows(
                open_input,
                req@,
                found,
                present,
                opened,
                r,
            ),
{
    let ghost model = req@;
    let LaunchRequest { infile, format, overwrite, radvideo_path, outfile } = req;
    let ghost explicit = text_of(radvideo_path);
    let found: Option<String> = match &radvideo_path {
        Some(_) => None,
        None => lookup(ENCODER_EXECUTABLE),
    };
    let folder = match resolve_encoder_folder(radvideo_path, found) {
        Ok(d) => d,
        Err(e) => {
            assert(lookups_made(lookup, explicit, found, None));
            assert(run_follows(open_input, model, found, None, None::<T>, Err(e)));
            return Err(e);
        },
    };
    let candidate = encoder_path_in(&folder);
    let present = lookup(candidate.as_str());
    assert(lookups_made(lookup, explicit, found, present));
    let folder = match check_encoder_in_folder(folder, present.is_some()) {
        Ok(d) => d,
        Err(e) => {
            assert(run_follows(open_input, model, found, present, None::<T>, Err(e)));
            return Err(e);
        },
    };
    let opened = open_input(infile.as_str());
    match opened {
        Some(handle) => {
            let outfile = resolve_output_path(&infile, outfile);
            let config = ResolvedConfiguration {
                format,
                overwrite,
                radvideo_path: folder,
                outfile,
            };
            let r = Ok((handle, config));
            assert(run_follows(open_input, model, found, present, Some(handle), r));
            r
        },
        None => {
            let r = Err(ValidationError::InputNotFound { path: infile });
            assert(run_follows(open_input, model, found, present, None::<T>, r));
            r
        },
    }
}

/// Validates a request, finding executables with the search path and the
/// file system, and opening the input with `open_input`.
pub fn precheck<T, O>(req: LaunchRequest, open_input: O) -> (r: Result<
    (T, ResolvedConfiguration),
    ValidationError,
>) where O: FnOnce(&str) -> Option<T>
    requires
        forall|s: &str| #[trigger] open_input.requires((s,)),
    ensures
        exists|found: Option<String>, present: Option<String>, opened: Option<T>|
            #[trigger] run_follows(open_input, req@, found, present, opened, r),
{
    precheck_with(req, |s: &str| -> (r: Option<String>) { find_executable(s) }, open_input)
}

impl ResolvedConfiguration {
    /// The game the video is prepared for.
    pub fn format(&self) -> (r: GameFormat)
        ensures
            r == self@.format,
    {
        self.format
    }

    /// Whether an existing output file may be replaced without asking.
    pub fn overwrite(&self) -> (r: bool)
        ensures
            r == self@.overwrite,
    {
        self.overwrite
    }

    /// The folder that holds the encoder.
    pub fn radvideo_path(&self) -> (r: &String)
        ensures
            r@ == self@.radvideo_path,
    {
        &self.radvideo_path
    }

    /// Where the result is written.
    pub fn outfile(&self) -> (r: &String)
        ensures
            r@ == self@.outfile,
    {
        &self.outfile
    }
}

/// A folder the user named decides the encoder folder, whatever the search
/// path holds: when the encoder is in it, validation gets past the encoder
/// checks, and the outcome does not depend on the search path.
pub proof fn lemma_explicit_folder_ignores_search_path(
    req: RequestModel,
    found_a: Option<Seq<char>>,
    found_b: Option<Seq<char>>,
    input_readable: bool,
)
    requires
        req.radvideo_path is Some,
    ensures
        encoder_stage(req.radvideo_path, found_a, true) == Ok::<Seq<char>, Failure>(
            req.radvideo_path->Some_0,
        ),
        validation(req, found_a, true, input_readable) == validation(
            req,
            found_b,
            true,
            input_readable,
        ),
        validation(req, found_a, true, input_readable) is Ok || validation(
            req,
            found_a,
            true,
            input_readable,
        ) == Err::<ConfigModel, Failure>(Failure::InputNotFound(req.infile)),
{
}

/// Without a folder from the user, the encoder found on the search path
/// gives its containing directory as the encoder folder.
pub proof fn lemma_search_path_gives_containing_dir(exe: Seq<char>)
    requires
        parent_of(exe) is Some,
    ensures
        folder_from(None, Some(exe)) == Ok::<Seq<char>, Failure>(parent_of(exe)->Some_0),
{
}

/// Without a folder from the user and with no encoder on the search path,
/// validation fails with `EncoderNotFound`, whatever the input file is like.
pub proof fn lemma_missing_encoder_reported_first(
    req: RequestModel,
    encoder_present: bool,
    input_readable: bool,
)
    requires
        req.radvideo_path is None,
    ensures
        validation(req, None, encoder_present, input_readable) == Err::<ConfigModel, Failure>(
            Failure::EncoderNotFound,
        ),
{
}

/// An unreadable input is reported exactly when the encoder checks pass:
/// never in place of `EncoderNotFound` or `EncoderNotInFolder`.
pub proof fn lemma_input_failure_after_encoder_checks(
    req: RequestModel,
    found_exe: Option<Seq<char>>,
    encoder_present: bool,
    input_readable: bool,
)
    ensures
        validation(req, found_exe, encoder_present, input_readable) is Err && validation(
            req,
            found_exe,
            encoder_present,
            input_readable,
        )->Err_0 is InputNotFound <==> (encoder_stage(req.radvideo_path, found_exe, encoder_present)
            is Ok && !input_readable),
        encoder_stage(req.radvideo_path, found_exe, encoder_present) is Ok && !input_readable
            ==> validation(req, found_exe, encoder_present, input_readable) == Err::<
            ConfigModel,
            Failure,
        >(Failure::InputNotFound(req.infile)),
{
}

} // verus!
