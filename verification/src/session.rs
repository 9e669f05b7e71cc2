//! The conversation with the foreign component.
//!
//! A session knows which call it is waiting on. Its driver makes that call,
//! by whatever means the platform has, and hands the session a [`Reply`];
//! the session answers with the next call to make or with the result of the
//! whole workflow. Nothing is asked twice: a failure ends the session.

use crate::blob::Blob;
use crate::error::{outcome_of, HassleError, HassleErrorView, Outcome};
use crate::ffi::{DxcClass, DxcDefine, DxcInterface, DXC_VALIDATOR_FLAGS_IN_PLACE_EDIT};
use crate::handler::{asked_after, serves, DxcIncludeHandler, IncludeResponse, IncludeServer};
use crate::os::{check_hresult, decode_utf8_text, succeeded, text_of_utf8, HRESULT, S_OK};
use crate::utils::NulError;
use crate::wide::WideUnit;
use vstd::prelude::*;

verus! {

/// The shared libraries that the foreign component comes in.
#[derive(Debug, Clone, Copy, PartialEq, Eq, Structural)]
pub enum Module {
    /// The compiler, which also makes blobs.
    Compiler,
    /// The validator.
    Validator,
}

/// A call that a session wants made.
#[derive(Debug, Clone, Copy, PartialEq, Eq, Structural)]
pub enum Request {
    /// Load the shared library.
    LoadModule(Module),
    /// Find the entry point of `module` and have it make an object of
    /// `class`, seen through `interface`.
    CreateInstance { module: Module, class: DxcClass, interface: DxcInterface },
    /// Wrap the session's input as a blob of the foreign component.
    CreateBlob,
    /// Compile that blob with the session's marshaled arguments and with the
    /// session's handler attached, so that every request of the compiler for
    /// a further source goes to [`CompileSession::serve`] while the call
    /// runs, and fetch the status of the operation.
    Compile,
    /// Validate that blob under `flags`, and fetch the status of the
    /// operation.
    Validate { flags: u32 },
    /// Fetch the operation's error buffer.
    GetErrorBuffer,
    /// Have the error buffer turned into UTF-8 and read its bytes.
    ReadErrorText,
    /// Fetch the operation's result blob.
    GetResult,
    /// Read the bytes of the result blob.
    ReadResult,
    /// Read back the bytes of the input blob.
    ReadContainer,
}

/// What came of a call.
#[derive(Debug)]
pub enum Reply {
    /// The library is loaded.
    Loaded,
    /// The loader could not provide the library that was looked for as
    /// `filename`.
    LoadFailed { filename: String, inner: libloading::Error },
    /// The library has no entry point of the expected name.
    SymbolMissing(libloading::Error),
    /// The call returned this status.
    Status(HRESULT),
    /// The call returned `call`, and the operation it started reports
    /// `status`.
    Completed { call: HRESULT, status: u32 },
    /// The bytes that were read.
    Contents(Vec<u8>),
}

/// A [`Reply`] with its text and bytes as sequences.
pub enum ReplyView {
    Loaded,
    LoadFailed { filename: Seq<char>, inner: libloading::Error },
    SymbolMissing(libloading::Error),
    Status(HRESULT),
    Completed { call: HRESULT, status: u32 },
    Contents(Seq<u8>),
}

impl View for Reply {
    type V = ReplyView;

    open spec fn view(&self) -> ReplyView {
        match *self {
            Reply::Loaded => ReplyView::Loaded,
            Reply::LoadFailed { filename, inner } => ReplyView::LoadFailed {
                filename: filename@,
                inner,
            },
            Reply::SymbolMissing(inner) => ReplyView::SymbolMissing(inner),
            Reply::Status(hr) => ReplyView::Status(hr),
            Reply::Completed { call, status } => ReplyView::Completed { call, status },
            Reply::Contents(bytes) => ReplyView::Contents(bytes@),
        }
    }
}

/// Where a session goes on a reply: to another call, or to its end with `T`.
pub enum Step<T> {
    Next(Request),
    Done(T),
}

/// Whether `reply` is of a kind that `request` can have.
pub open spec fn answers(request: Request, reply: ReplyView) -> bool {
    match request {
        Request::LoadModule(_) => reply is Loaded || reply is LoadFailed,
        Request::CreateInstance { .. } => reply is Status || reply is SymbolMissing,
        Request::CreateBlob | Request::GetErrorBuffer | Request::GetResult => reply is Status,
        Request::Compile | Request::Validate { .. } => reply is Completed,
        Request::ReadErrorText | Request::ReadResult | Request::ReadContainer => reply
            is Contents,
    }
}

impl Reply {
    /// Whether this reply is of a kind that `request` can have.
    pub fn is_answer_to(&self, request: Request) -> (b: bool)
        ensures
            b == answers(request, self@),
    {
        match request {
            Request::LoadModule(_) => matches!(self, Reply::Loaded | Reply::LoadFailed { .. }),
            Request::CreateInstance { .. } => matches!(
                self,
                Reply::Status(_) | Reply::SymbolMissing(_)
            ),
            Request::CreateBlob | Request::GetErrorBuffer | Request::GetResult => matches!(
                self,
                Reply::Status(_)
            ),
            Request::Compile | Request::Validate { .. } => matches!(
                self,
                Reply::Completed { .. }
            ),
            Request::ReadErrorText | Request::ReadResult | Request::ReadContainer => matches!(
                self,
                Reply::Contents(_)
            ),
        }
    }
}

/// The request for the compiler: an object of the compiler class from the
/// compiler's library, seen through the compiler interface.
pub open spec fn create_compiler() -> Request {
    Request::CreateInstance {
        module: Module::Compiler,
        class: DxcClass::Compiler,
        interface: DxcInterface::Compiler,
    }
}

/// The request for the library object, which makes and converts blobs: an
/// object of the library class from the compiler's library, seen through the
/// library interface.
pub open spec fn create_library() -> Request {
    Request::CreateInstance {
        module: Module::Compiler,
        class: DxcClass::Library,
        interface: DxcInterface::Library,
    }
}

/// The request for the validator: an object of the validator class from the
/// validator's library, seen through the validator interface.
pub open spec fn create_validator() -> Request {
    Request::CreateInstance {
        module: Module::Validator,
        class: DxcClass::Validator,
        interface: DxcInterface::Validator,
    }
}

/// After a call that reports only a status: on to `next` if it succeeded,
/// and otherwise the end, with the status as the error.
pub open spec fn after_status(hr: HRESULT, next: Request) -> Step<Outcome> {
    if succeeded(hr) {
        Step::Next(next)
    } else {
        Step::Done(Err(HassleErrorView::Win32Error(hr)))
    }
}

/// After an operation: on to its result if both the call and the operation
/// succeeded, and otherwise to its error buffer.
pub open spec fn after_operation(call: HRESULT, status: u32, result: Request) -> Step<Outcome> {
    if succeeded(call) && status == 0 {
        Step::Next(result)
    } else {
        Step::Next(Request::GetErrorBuffer)
    }
}

/// After the source was wrapped: the compiler is called next, with the
/// marshaled texts, unless one of them could not be marshaled, which ends
/// the compilation in place of the call.
pub open spec fn after_wrapping(refusal: Option<NulError>) -> Step<Outcome> {
    match refusal {
        Some(e) => Step::Done(Err(HassleErrorView::NulError(e))),
        None => Step::Next(Request::Compile),
    }
}

/// What a compilation does on `reply` to `request`, where `refusal` is why
/// its texts cannot be marshaled, if they cannot.
pub open spec fn compile_transition(
    request: Request,
    reply: ReplyView,
    refusal: Option<NulError>,
) -> Step<Outcome> {
    match (request, reply) {
        (Request::LoadModule(_), ReplyView::Loaded) => Step::Next(
            create_compiler(),
        ),
        (Request::LoadModule(_), ReplyView::LoadFailed { filename, inner }) => Step::Done(
            Err(HassleErrorView::LoadLibraryError { filename, inner }),
        ),
        (Request::CreateInstance { .. }, ReplyView::SymbolMissing(inner)) => Step::Done(
            Err(HassleErrorView::LibLoadingError(inner)),
        ),
        (Request::CreateInstance { class, .. }, ReplyView::Status(hr)) => after_status(
            hr,
            if class == DxcClass::Compiler {
                create_library()
            } else {
                Request::CreateBlob
            },
        ),
        (Request::CreateBlob, ReplyView::Status(hr)) => if succeeded(hr) {
            after_wrapping(refusal)
        } else {
            after_status(hr, Request::Compile)
        },
        (Request::Compile, ReplyView::Completed { call, status }) => after_operation(
            call,
            status,
            Request::GetResult,
        ),
        (Request::GetErrorBuffer, ReplyView::Status(hr)) => after_status(
            hr,
            Request::ReadErrorText,
        ),
        (Request::ReadErrorText, ReplyView::Contents(bytes)) => Step::Done(
            Err(
                match text_of_utf8(bytes) {
                    Ok(text) => HassleErrorView::CompileError(text),
                    Err(e) => HassleErrorView::Utf8Error(e),
                },
            ),
        ),
        (Request::GetResult, ReplyView::Status(hr)) => after_status(hr, Request::ReadResult),
        (Request::ReadResult, ReplyView::Contents(bytes)) => Step::Done(Ok(bytes)),
        _ => Step::Next(request),
    }
}

/// What a validation does on `reply` to `request`.
pub open spec fn validate_transition(request: Request, reply: ReplyView) -> Step<Outcome> {
    match (request, reply) {
        (Request::LoadModule(Module::Compiler), ReplyView::Loaded) => Step::Next(
            Request::LoadModule(Module::Validator),
        ),
        (Request::LoadModule(Module::Validator), ReplyView::Loaded) => Step::Next(
            create_validator(),
        ),
        (Request::LoadModule(_), ReplyView::LoadFailed { filename, inner }) => Step::Done(
            Err(HassleErrorView::LoadLibraryError { filename, inner }),
        ),
        (Request::CreateInstance { .. }, ReplyView::SymbolMissing(inner)) => Step::Done(
            Err(HassleErrorView::LibLoadingError(inner)),
        ),
        (Request::CreateInstance { class, .. }, ReplyView::Status(hr)) => after_status(
            hr,
            if class == DxcClass::Validator {
                create_library()
            } else {
                Request::CreateBlob
            },
        ),
        (Request::CreateBlob, ReplyView::Status(hr)) => after_status(
            hr,
            Request::Validate { flags: DXC_VALIDATOR_FLAGS_IN_PLACE_EDIT },
        ),
        (Request::Validate { .. }, ReplyView::Completed { call, status }) => after_operation(
            call,
            status,
            Request::ReadContainer,
        ),
        (Request::GetErrorBuffer, ReplyView::Status(hr)) => after_status(
            hr,
            Request::ReadErrorText,
        ),
        (Request::ReadErrorText, ReplyView::Contents(bytes)) => Step::Done(
            Err(
                match text_of_utf8(bytes) {
                    Ok(text) => HassleErrorView::ValidationError(text),
                    Err(e) => HassleErrorView::Utf8Error(e),
                },
            ),
        ),
        (Request::ReadContainer, ReplyView::Contents(bytes)) => Step::Done(Ok(bytes)),
        _ => Step::Next(request),
    }
}

/// The calls that a compilation makes.
pub open spec fn compiling(request: Request) -> bool {
    ||| request == Request::LoadModule(Module::Compiler)
    ||| request == create_compiler()
    ||| request == create_library()
    ||| request == Request::CreateBlob
    ||| request == Request::Compile
    ||| request == Request::GetErrorBuffer
    ||| request == Request::ReadErrorText
    ||| request == Request::GetResult
    ||| request == Request::ReadResult
}

/// The calls that a validation makes.
pub open spec fn validating(request: Request) -> bool {
    ||| request == Request::LoadModule(Module::Compiler)
    ||| request == Request::LoadModule(Module::Validator)
    ||| request == create_validator()
    ||| request == create_library()
    ||| request == Request::CreateBlob
    ||| request == (Request::Validate { flags: DXC_VALIDATOR_FLAGS_IN_PLACE_EDIT })
    ||| request == Request::GetErrorBuffer
    ||| request == Request::ReadErrorText
    ||| request == Request::ReadContainer
}

/// The view of a step that ends in a workflow's result.
pub open spec fn step_of(step: Step<Result<Vec<u8>, HassleError>>) -> Step<Outcome> {
    match step {
        Step::Next(request) => Step::Next(request),
        Step::Done(result) => Step::Done(outcome_of(result)),
    }
}

/// The request for the compiler.
fn compiler_instance() -> (request: Request)
    ensures
        request == create_compiler(),
{
    Request::CreateInstance {
        module: Module::Compiler,
        class: DxcClass::Compiler,
        interface: DxcInterface::Compiler,
    }
}

/// The request for the library object.
fn library_instance() -> (request: Request)
    ensures
        request == create_library(),
{
    Request::CreateInstance {
        module: Module::Compiler,
        class: DxcClass::Library,
        interface: DxcInterface::Library,
    }
}

/// The request for the validator.
fn validator_instance() -> (request: Request)
    ensures
        request == create_validator(),
{
    Request::CreateInstance {
        module: Module::Validator,
        class: DxcClass::Validator,
        interface: DxcInterface::Validator,
    }
}

/// Goes on to `next` if `hr` reports success, and ends with `hr` otherwise.
fn status_step(hr: HRESULT, next: Request) -> (step: Step<Result<Vec<u8>, HassleError>>)
    ensures
        step_of(step) == after_status(hr, next),
{
    match check_hresult(hr) {
        Ok(()) => Step::Next(next),
        Err(hr) => Step::Done(Err(HassleError::Win32Error(hr))),
    }
}

/// Goes on to `result` if the call and the operation succeeded, and to the
/// error buffer otherwise.
fn operation_step(call: HRESULT, status: u32, result: Request) -> (step: Step<
    Result<Vec<u8>, HassleError>,
>)
    ensures
        step_of(step) == after_operation(call, status, result),
{
    if call == S_OK && status == 0 {
        Step::Next(result)
    } else {
        Step::Next(Request::GetErrorBuffer)
    }
}

/// One step of a compilation whose texts are refused with `refusal`, if they
/// are.
pub fn compile_step(request: Request, reply: Reply, refusal: Option<NulError>) -> (step: Step<
    Result<Vec<u8>, HassleError>,
>)
    requires
        compiling(request),
        answers(request, reply@),
    ensures
        step_of(step) == compile_transition(request, reply@, refusal),
        step is Next ==> compiling(step->Next_0),
        step is Next && step->Next_0 == Request::Compile ==> refusal is None,
{
    match reply {
        Reply::Loaded => Step::Next(compiler_instance()),
        Reply::LoadFailed { filename, inner } => Step::Done(
            Err(HassleError::LoadLibraryError { filename, inner }),
        ),
        Reply::SymbolMissing(inner) => Step::Done(Err(HassleError::LibLoadingError(inner))),
        Reply::Status(hr) => match request {
            Request::CreateInstance { class: DxcClass::Compiler, .. } => status_step(
                hr,
                library_instance(),
            ),
            Request::CreateInstance { .. } => status_step(hr, Request::CreateBlob),
            Request::CreateBlob => match (check_hresult(hr), refusal) {
                (Ok(()), Some(e)) => Step::Done(Err(HassleError::NulError(e))),
                _ => status_step(hr, Request::Compile),
            },
            Request::GetErrorBuffer => status_step(hr, Request::ReadErrorText),
            _ => status_step(hr, Request::ReadResult),
        },
        Reply::Completed { call, status } => operation_step(call, status, Request::GetResult),
        Reply::Contents(bytes) => match request {
            Request::ReadErrorText => match decode_utf8_text(bytes.as_slice()) {
                Ok(text) => Step::Done(Err(HassleError::CompileError(text))),
                Err(e) => Step::Done(Err(HassleError::Utf8Error(e))),
            },
            _ => Step::Done(Ok(bytes)),
        },
    }
}

/// One step of a validation.
pub fn validate_step(request: Request, reply: Reply) -> (step: Step<Result<Vec<u8>, HassleError>>)
    requires
        validating(request),
        answers(request, reply@),
    ensures
        step_of(step) == validate_transition(request, reply@),
        step is Next ==> validating(step->Next_0),
{
    match reply {
        Reply::Loaded => match request {
            Request::LoadModule(Module::Compiler) => Step::Next(
                Request::LoadModule(Module::Validator),
            ),
            _ => Step::Next(validator_instance()),
        },
        Reply::LoadFailed { filename, inner } => Step::Done(
            Err(HassleError::LoadLibraryError { filename, inner }),
        ),
        Reply::SymbolMissing(inner) => Step::Done(Err(HassleError::LibLoadingError(inner))),
        Reply::Status(hr) => match request {
            Request::CreateInstance { class: DxcClass::Validator, .. } => status_step(
                hr,
                library_instance(),
            ),
            Request::CreateInstance { .. } => status_step(hr, Request::CreateBlob),
            Request::CreateBlob => status_step(
                hr,
                Request::Validate { flags: DXC_VALIDATOR_FLAGS_IN_PLACE_EDIT },
            ),
            _ => status_step(hr, Request::ReadErrorText),
        },
        Reply::Completed { call, status } => operation_step(
            call,
            status,
            Request::ReadContainer,
        ),
        Reply::Contents(bytes) => match request {
            Request::ReadErrorText => match decode_utf8_text(bytes.as_slice()) {
                Ok(text) => Step::Done(Err(HassleError::ValidationError(text))),
                Err(e) => Step::Done(Err(HassleError::Utf8Error(e))),
            },
            _ => Step::Done(Ok(bytes)),
        },
    }
}

/// What the compiler is called with, as it crosses the boundary: every text
/// as a nul-terminated wide string.
#[derive(Debug)]
pub struct CompileCall<W> {
    pub source_name: Vec<W>,
    pub entry_point: Vec<W>,
    pub target_profile: Vec<W>,
    pub arguments: Vec<Vec<W>>,
    pub defines: Vec<DxcDefine<W>>,
}

/// Where a compilation stands: the call that it is waiting on, which is one
/// of those that a compilation makes, and why its texts cannot be marshaled,
/// if they cannot. The compiler is not called with texts that were refused.
#[derive(Debug)]
struct CompileProgress {
    pending: Option<Request>,
    refusal: Option<NulError>,
}

impl CompileProgress {
    #[verifier::type_invariant]
    spec fn well_formed(self) -> bool {
        &&& self.pending is Some ==> compiling(self.pending->Some_0)
        &&& self.pending == Some(Request::Compile) ==> self.refusal is None
    }

    /// Takes the reply to the pending call.
    fn advance(&mut self, reply: Reply) -> (done: Option<Result<Vec<u8>, HassleError>>)
        requires
            old(self).pending is Some,
            answers(old(self).pending->Some_0, reply@),
        ensures
            final(self).refusal == old(self).refusal,
            match compile_transition(old(self).pending->Some_0, reply@, old(self).refusal) {
                Step::Next(request) => done is None && final(self).pending == Some(request),
                Step::Done(outcome) => done is Some && outcome_of(done->Some_0) == outcome
                    && final(self).pending is None,
            },
    {
        proof {
            use_type_invariant(&*self);
        }
        match self.pending {
            Some(request) => match compile_step(request, reply, self.refusal) {
                Step::Next(next) => {
                    self.pending = Some(next);
                    None
                },
                Step::Done(result) => {
                    self.pending = None;
                    Some(result)
                },
            },
            None => None,
        }
    }
}

/// A compilation under way, with the handler that answers the compiler's
/// requests for further sources.
#[derive(Debug)]
pub struct CompileSession<W, H> {
    progress: CompileProgress,
    source: Blob,
    call: CompileCall<W>,
    server: IncludeServer<H>,
}

impl<W, H> CompileSession<W, H> {
    /// The call that the session is waiting on; none once it has ended.
    pub closed spec fn spec_request(&self) -> Option<Request> {
        self.progress.pending
    }

    /// The source text, as the blob that is compiled.
    pub closed spec fn spec_source(&self) -> &Blob {
        &self.source
    }

    /// The marshaled arguments of the compiler call. They are those of the
    /// texts that the session was made for if the texts were not refused.
    pub closed spec fn spec_call(&self) -> &CompileCall<W> {
        &self.call
    }

    /// Why the texts of the compiler call cannot be marshaled, if they
    /// cannot.
    pub closed spec fn spec_refusal(&self) -> Option<NulError> {
        self.progress.refusal
    }

    /// The handler that is attached to the compiler call, with the names
    /// that were put to it.
    pub closed spec fn spec_server(&self) -> &IncludeServer<H> {
        &self.server
    }

    /// A session that compiles `source` with the arguments in `marshaled`,
    /// or ends in place of the compiler call where they hold a refusal; that
    /// has `handler` answer the compiler's requests for sources; and that
    /// has asked for nothing yet but the compiler's library.
    pub fn new(source: Blob, marshaled: Result<CompileCall<W>, NulError>, handler: H) -> (session:
        Self)
        ensures
            session.spec_request() == Some(Request::LoadModule(Module::Compiler)),
            *session.spec_source() == source,
            match marshaled {
                Ok(call) => *session.spec_call() == call && session.spec_refusal() is None,
                Err(e) => session.spec_refusal() == Some(e),
            },
            *session.spec_server().handler() == handler,
            session.spec_server().asked() == Seq::<Seq<char>>::empty(),
    {
        let (call, refusal) = match marshaled {
            Ok(call) => (call, None),
            Err(e) => (
                CompileCall {
                    source_name: Vec::new(),
                    entry_point: Vec::new(),
                    target_profile: Vec::new(),
                    arguments: Vec::new(),
                    defines: Vec::new(),
                },
                Some(e),
            ),
        };
        CompileSession {
            progress: CompileProgress {
                pending: Some(Request::LoadModule(Module::Compiler)),
                refusal,
            },
            source,
            call,
            server: IncludeServer::new(handler),
        }
    }

    /// The call that the session is waiting on; none once it has ended.
    #[verifier::when_used_as_spec(spec_request)]
    pub fn request(&self) -> (request: Option<Request>)
        ensures
            request == self.spec_request(),
    {
        self.progress.pending
    }

    /// The source text, as the blob that is compiled.
    #[verifier::when_used_as_spec(spec_source)]
    pub fn source(&self) -> (source: &Blob)
        ensures
            source == self.spec_source(),
    {
        &self.source
    }

    /// The marshaled arguments of the compiler call.
    #[verifier::when_used_as_spec(spec_call)]
    pub fn call(&self) -> (call: &CompileCall<W>)
        ensures
            call == self.spec_call(),
    {
        &self.call
    }

    /// Why the texts of the compiler call cannot be marshaled, if they
    /// cannot.
    #[verifier::when_used_as_spec(spec_refusal)]
    pub fn refusal(&self) -> (refusal: Option<NulError>)
        ensures
            refusal == self.spec_refusal(),
    {
        self.progress.refusal
    }

    /// The handler that is attached to the compiler call, with the names
    /// that were put to it.
    #[verifier::when_used_as_spec(spec_server)]
    pub fn server(&self) -> (server: &IncludeServer<H>)
        ensures
            server == self.spec_server(),
    {
        &self.server
    }

    /// Takes the reply to the pending call. Returns the result of the
    /// compilation if that ends it, and otherwise leaves the next call
    /// pending.
    pub fn advance(&mut self, reply: Reply) -> (done: Option<Result<Vec<u8>, HassleError>>)
        requires
            old(self).spec_request() is Some,
            answers(old(self).spec_request()->Some_0, reply@),
        ensures
            final(self).spec_source() == old(self).spec_source(),
            final(self).spec_call() == old(self).spec_call(),
            final(self).spec_server() == old(self).spec_server(),
            final(self).spec_refusal() == old(self).spec_refusal(),
            final(self).spec_request() == Some(Request::Compile) ==> final(self).spec_refusal()
                is None,
            match compile_transition(
                old(self).spec_request()->Some_0,
                reply@,
                old(self).spec_refusal(),
            ) {
                Step::Next(request) => done is None && final(self).spec_request() == Some(
                    request,
                ),
                Step::Done(outcome) => done is Some && outcome_of(done->Some_0) == outcome
                    && final(self).spec_request() is None,
            },
    {
        let done = self.progress.advance(reply);
        proof {
            use_type_invariant(&self.progress);
        }
        done
    }
}

impl<W: WideUnit, H: DxcIncludeHandler> CompileSession<W, H> {
    /// Serves one request of the compiler for a further source: puts the
    /// name that arrives as `filename` to the session's handler, as
    /// [`IncludeServer::serve`] does, and leaves the compilation where it
    /// stands.
    pub fn serve(&mut self, filename: &[W]) -> (response: IncludeResponse)
        ensures
            final(self).spec_request() == old(self).spec_request(),
            final(self).spec_refusal() == old(self).spec_refusal(),
            final(self).spec_source() == old(self).spec_source(),
            final(self).spec_call() == old(self).spec_call(),
            final(self).spec_server().handler() == old(self).spec_server().handler(),
            serves(old(self).spec_server().handler(), filename@, response),
            final(self).spec_server().asked() == asked_after(
                old(self).spec_server().asked(),
                filename@,
            ),
    {
        self.server.serve(filename)
    }
}

/// A validation under way.
#[derive(Debug)]
pub struct ValidateSession {
    pending: Option<Request>,
    container: Blob,
}

impl ValidateSession {
    #[verifier::type_invariant]
    spec fn well_formed(self) -> bool {
        self.pending is Some ==> validating(self.pending->Some_0)
    }

    /// The call that the session is waiting on; none once it has ended.
    pub closed spec fn spec_request(&self) -> Option<Request> {
        self.pending
    }

    /// The container, as the blob that is validated.
    pub closed spec fn spec_container(&self) -> &Blob {
        &self.container
    }

    /// A session that validates `container` and has asked for nothing yet
    /// but the compiler's library.
    pub fn new(container: Blob) -> (session: Self)
        ensures
            session.spec_request() == Some(Request::LoadModule(Module::Compiler)),
            *session.spec_container() == container,
    {
        ValidateSession { pending: Some(Request::LoadModule(Module::Compiler)), container }
    }

    /// The call that the session is waiting on; none once it has ended.
    #[verifier::when_used_as_spec(spec_request)]
    pub fn request(&self) -> (request: Option<Request>)
        ensures
            request == self.spec_request(),
    {
        self.pending
    }

    /// The container, as the blob that is validated.
    #[verifier::when_used_as_spec(spec_container)]
    pub fn container(&self) -> (container: &Blob)
        ensures
            container == self.spec_container(),
    {
        &self.container
    }

    /// Takes the reply to the pending call. Returns the result of the
    /// validation if that ends it, and otherwise leaves the next call
    /// pending.
    pub fn advance(&mut self, reply: Reply) -> (done: Option<Result<Vec<u8>, HassleError>>)
        requires
            old(self).spec_request() is Some,
            answers(old(self).spec_request()->Some_0, reply@),
        ensures
            final(self).spec_container() == old(self).spec_container(),
            match validate_transition(old(self).spec_request()->Some_0, reply@) {
                Step::Next(request) => done is None && final(self).spec_request() == Some(
                    request,
                ),
                Step::Done(outcome) => done is Some && outcome_of(done->Some_0) == outcome
                    && final(self).spec_request() is None,
            },
    {
        proof {
            use_type_invariant(&*self);
        }
        match self.pending {
            Some(request) => match validate_step(request, reply) {
                Step::Next(next) => {
                    self.pending = Some(next);
                    None
                },
                Step::Done(result) => {
                    self.pending = None;
                    Some(result)
                },
            },
            None => None,
        }
    }
}

/// How a compilation that waits on `request` ends if `replies` are what its
/// calls come to, one after another: with nothing, unless each reply answers
/// the call that is pending when it comes and the last one, no earlier one,
/// ends the compilation.
pub open spec fn compile_outcome(
    request: Request,
    replies: Seq<ReplyView>,
    refusal: Option<NulError>,
) -> Option<Outcome>
    decreases replies.len(),
{
    if replies.len() == 0 || !answers(request, replies[0]) {
        None
    } else {
        match compile_transition(request, replies[0], refusal) {
            Step::Next(next) => compile_outcome(next, replies.drop_first(), refusal),
            Step::Done(outcome) => if replies.len() == 1 {
                Some(outcome)
            } else {
                None
            },
        }
    }
}

/// How a validation that waits on `request` ends if `replies` are what its
/// calls come to, one after another.
pub open spec fn validate_outcome(request: Request, replies: Seq<ReplyView>) -> Option<Outcome>
    decreases replies.len(),
{
    if replies.len() == 0 || !answers(request, replies[0]) {
        None
    } else {
        match validate_transition(request, replies[0]) {
            Step::Next(next) => validate_outcome(next, replies.drop_first()),
            Step::Done(outcome) => if replies.len() == 1 {
                Some(outcome)
            } else {
                None
            },
        }
    }
}

/// The first call of either workflow.
pub open spec fn first_request() -> Request {
    Request::LoadModule(Module::Compiler)
}

/// In a compilation, a call that reports only a status is never made again
/// and never passed over, whatever the texts are: the compilation ends with
/// exactly that status as its error if it is not that of success, and goes
/// on if it is, unless it is the source that was wrapped and the texts
/// cannot be marshaled, which then ends it.
pub proof fn lemma_compile_status_is_reported(
    request: Request,
    hr: HRESULT,
    refusal: Option<NulError>,
)
    requires
        compiling(request),
        answers(request, ReplyView::Status(hr)),
    ensures
        !succeeded(hr) ==> compile_transition(request, ReplyView::Status(hr), refusal) == Step::<
            Outcome,
        >::Done(Err(HassleErrorView::Win32Error(hr))),
        succeeded(hr) && (request != Request::CreateBlob || refusal is None)
            ==> compile_transition(request, ReplyView::Status(hr), refusal) is Next,
        succeeded(hr) && request == Request::CreateBlob && refusal is Some ==> compile_transition(
            request,
            ReplyView::Status(hr),
            refusal,
        ) == Step::<Outcome>::Done(Err(HassleErrorView::NulError(refusal->Some_0))),
{
}

/// In a validation likewise.
pub proof fn lemma_validate_status_is_reported(request: Request, hr: HRESULT)
    requires
        validating(request),
        answers(request, ReplyView::Status(hr)),
    ensures
        succeeded(hr) ==> validate_transition(request, ReplyView::Status(hr)) is Next,
        !succeeded(hr) ==> validate_transition(request, ReplyView::Status(hr)) == Step::<
            Outcome,
        >::Done(Err(HassleErrorView::Win32Error(hr))),
{
}

/// A compilation that ends with a status as its error ends on the call that
/// returned it: the status is no success, and it is the last reply.
pub proof fn lemma_compile_error_code(
    replies: Seq<ReplyView>,
    hr: HRESULT,
    refusal: Option<NulError>,
)
    requires
        compile_outcome(first_request(), replies, refusal) == Some(
            Err::<Seq<u8>, HassleErrorView>(HassleErrorView::Win32Error(hr)),
        ),
    ensures
        !succeeded(hr),
        replies.last() == ReplyView::Status(hr),
{
    reveal_with_fuel(compile_outcome, 9);
}

/// A compilation ends with diagnostics only if its texts were marshaled and
/// the compiler call or the operation it started reported a failure, and the
/// diagnostics are then the text of the error buffer.
pub proof fn lemma_compile_diagnostics(
    replies: Seq<ReplyView>,
    text: Seq<char>,
    refusal: Option<NulError>,
)
    requires
        compile_outcome(first_request(), replies, refusal) == Some(
            Err::<Seq<u8>, HassleErrorView>(HassleErrorView::CompileError(text)),
        ),
    ensures
        refusal is None,
        replies.len() == 7,
        replies[4] is Completed,
        !(succeeded(replies[4]->call) && replies[4]->status == 0),
        replies[6] is Contents,
        text_of_utf8(replies[6]->Contents_0) == Ok::<Seq<char>, core::str::Utf8Error>(text),
{
    reveal_with_fuel(compile_outcome, 9);
}

/// Texts that cannot be marshaled end a compilation where the compiler
/// would be called, and nowhere else: the refusal is the outcome exactly
/// when the library was loaded, both objects were made and the source was
/// wrapped. Until then the compilation goes as with any other texts.
pub proof fn lemma_compile_refusal(replies: Seq<ReplyView>, e: NulError, refusal: Option<NulError>)
    ensures
        compile_outcome(first_request(), replies, refusal) == Some(
            Err::<Seq<u8>, HassleErrorView>(HassleErrorView::NulError(e)),
        ) <==> refusal == Some(e) && replies == seq![
            ReplyView::Loaded,
            ReplyView::Status(S_OK),
            ReplyView::Status(S_OK),
            ReplyView::Status(S_OK),
        ],
{
    reveal_with_fuel(compile_outcome, 9);
    let all = seq![
        ReplyView::Loaded,
        ReplyView::Status(S_OK),
        ReplyView::Status(S_OK),
        ReplyView::Status(S_OK),
    ];
    if compile_outcome(first_request(), replies, refusal) == Some(
        Err::<Seq<u8>, HassleErrorView>(HassleErrorView::NulError(e)),
    ) {
        assert(replies =~= all);
    }
}

/// A source that cannot be wrapped ends a compilation with the status of
/// the failure, whatever the texts are.
pub proof fn lemma_compile_blob_failure(hr: HRESULT, refusal: Option<NulError>)
    requires
        !succeeded(hr),
    ensures
        compile_outcome(
            first_request(),
            seq![
                ReplyView::Loaded,
                ReplyView::Status(S_OK),
                ReplyView::Status(S_OK),
                ReplyView::Status(hr),
            ],
            refusal,
        ) == Some(Err::<Seq<u8>, HassleErrorView>(HassleErrorView::Win32Error(hr))),
{
    reveal_with_fuel(compile_outcome, 6);
}

/// A validation makes eight calls at most, each once.
pub proof fn lemma_validate_is_bounded(replies: Seq<ReplyView>)
    requires
        validate_outcome(first_request(), replies) is Some,
    ensures
        1 <= replies.len() <= 8,
{
    reveal_with_fuel(validate_outcome, 10);
}

/// A validation yields bytes only if every call and the operation itself
/// reported success, and the bytes are then those read back from the
/// container.
pub proof fn lemma_validate_success(replies: Seq<ReplyView>, bytes: Seq<u8>)
    ensures
        validate_outcome(first_request(), replies) == Some(Ok::<Seq<u8>, HassleErrorView>(bytes))
            <==> replies == seq![
            ReplyView::Loaded,
            ReplyView::Loaded,
            ReplyView::Status(S_OK),
            ReplyView::Status(S_OK),
            ReplyView::Status(S_OK),
            ReplyView::Completed { call: S_OK, status: 0 },
            ReplyView::Contents(bytes),
        ],
{
    reveal_with_fuel(validate_outcome, 10);
    let all = seq![
        ReplyView::Loaded,
        ReplyView::Loaded,
        ReplyView::Status(S_OK),
        ReplyView::Status(S_OK),
        ReplyView::Status(S_OK),
        ReplyView::Completed { call: S_OK, status: 0 },
        ReplyView::Contents(bytes),
    ];
    if validate_outcome(first_request(), replies) == Some(Ok::<Seq<u8>, HassleErrorView>(bytes)) {
        assert(replies =~= all);
    }
}

/// A validation that ends with a status as its error ends on the call that
/// returned it.
pub proof fn lemma_validate_error_code(replies: Seq<ReplyView>, hr: HRESULT)
    requires
        validate_outcome(first_request(), replies) == Some(
            Err::<Seq<u8>, HassleErrorView>(HassleErrorView::Win32Error(hr)),
        ),
    ensures
        !succeeded(hr),
        replies.last() == ReplyView::Status(hr),
{
    reveal_with_fuel(validate_outcome, 10);
}

/// A library that cannot be loaded ends either workflow at once, with the
/// name that was looked for and the loader's account, whatever was to be
/// compiled or validated.
pub proof fn lemma_missing_library(
    filename: Seq<char>,
    inner: libloading::Error,
    refusal: Option<NulError>,
)
    ensures
        compile_outcome(
            first_request(),
            seq![ReplyView::LoadFailed { filename, inner }],
            refusal,
        ) == Some(
            Err::<Seq<u8>, HassleErrorView>(HassleErrorView::LoadLibraryError { filename, inner }),
        ),
        validate_outcome(first_request(), seq![ReplyView::LoadFailed { filename, inner }])
            == Some(
            Err::<Seq<u8>, HassleErrorView>(HassleErrorView::LoadLibraryError { filename, inner }),
        ),
        validate_outcome(
            first_request(),
            seq![ReplyView::Loaded, ReplyView::LoadFailed { filename, inner }],
        ) == Some(
            Err::<Seq<u8>, HassleErrorView>(HassleErrorView::LoadLibraryError { filename, inner }),
        ),
{
    reveal_with_fuel(compile_outcome, 3);
    reveal_with_fuel(validate_outcome, 3);
}

/// A compilation makes seven calls at most, each once.
pub proof fn lemma_compile_is_bounded(replies: Seq<ReplyView>, refusal: Option<NulError>)
    requires
        compile_outcome(first_request(), replies, refusal) is Some,
    ensures
        1 <= replies.len() <= 7,
{
    reveal_with_fuel(compile_outcome, 9);
}

/// A compilation yields bytes only if its texts were marshaled and every
/// call and the operation itself reported success, and the bytes are then
/// those of the result blob.
pub proof fn lemma_compile_success(
    replies: Seq<ReplyView>,
    bytes: Seq<u8>,
    refusal: Option<NulError>,
)
    ensures
        compile_outcome(first_request(), replies, refusal) == Some(
            Ok::<Seq<u8>, HassleErrorView>(bytes),
        ) <==> refusal is None && replies == seq![
            ReplyView::Loaded,
            ReplyView::Status(S_OK),
            ReplyView::Status(S_OK),
            ReplyView::Status(S_OK),
            ReplyView::Completed { call: S_OK, status: 0 },
            ReplyView::Status(S_OK),
            ReplyView::Contents(bytes),
        ],
{
    reveal_with_fuel(compile_outcome, 9);
    let all = seq![
        ReplyView::Loaded,
        ReplyView::Status(S_OK),
        ReplyView::Status(S_OK),
        ReplyView::Status(S_OK),
        ReplyView::Completed { call: S_OK, status: 0 },
        ReplyView::Status(S_OK),
        ReplyView::Contents(bytes),
    ];
    if compile_outcome(first_request(), replies, refusal) == Some(
        Ok::<Seq<u8>, HassleErrorView>(bytes),
    ) {
        assert(replies =~= all);
    }
}

} // verus!
