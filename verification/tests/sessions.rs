use hassle_rs::error::HassleError;
use hassle_rs::ffi::{DxcClass, DxcInterface, DXC_VALIDATOR_FLAGS_IN_PLACE_EDIT};
use hassle_rs::handler::SourceTable;
use hassle_rs::os::{CP_UTF8, E_FILE_NOT_FOUND, S_OK};
use hassle_rs::session::{
    compile_step, validate_step, CompileSession, Module, Reply, Request, Step, ValidateSession,
};
use hassle_rs::utils::{compile_hlsl, validate_dxil, NulError};

const SOURCE: &str = "float4 main(): SV_Target { return 0; }";

const E_FAIL: i32 = -2147467259;

type Compilation = CompileSession<u16, SourceTable>;

fn includes() -> SourceTable {
    let mut table = SourceTable::new();
    table.insert(String::from("common.hlsl"), String::from("float4 one() { return 1; }"));
    table
}

fn pixel_shader() -> Compilation {
    compile_hlsl("shader.hlsl", SOURCE, "main", "ps_6_0", &[], &[], includes())
}

fn nul_in_the_name() -> Compilation {
    compile_hlsl("sha\0der.hlsl", SOURCE, "main", "ps_6_0", &["-Zi"], &[], includes())
}

fn run_compile(
    session: &mut Compilation,
    replies: Vec<Reply>,
) -> (Vec<Request>, Option<Result<Vec<u8>, HassleError>>) {
    let mut asked = Vec::new();
    let mut done = None;
    for reply in replies {
        let request = session.request().unwrap();
        assert!(reply.is_answer_to(request));
        asked.push(request);
        assert!(done.is_none());
        done = session.advance(reply);
    }
    (asked, done)
}

fn run_validate(
    session: &mut ValidateSession,
    replies: Vec<Reply>,
) -> (Vec<Request>, Option<Result<Vec<u8>, HassleError>>) {
    let mut asked = Vec::new();
    let mut done = None;
    for reply in replies {
        let request = session.request().unwrap();
        assert!(reply.is_answer_to(request));
        asked.push(request);
        assert!(done.is_none());
        done = session.advance(reply);
    }
    (asked, done)
}

fn create(module: Module, class: DxcClass, interface: DxcInterface) -> Request {
    Request::CreateInstance { module, class, interface }
}

fn wide(text: &str) -> Vec<u16> {
    let mut units: Vec<u16> = text.encode_utf16().collect();
    units.push(0);
    units
}

#[test]
fn compile_hlsl_marshals_its_texts() {
    let session: Compilation = compile_hlsl(
        "shader.hlsl",
        SOURCE,
        "main",
        "ps_6_0",
        &["-spirv", "-Zi"],
        &[("FAST", None), ("LEVEL", Some("3")), ("EMPTY", Some(""))],
        includes(),
    );
    assert_eq!(session.refusal(), None);
    assert!(session.server().names().is_empty());
    assert_eq!(session.request(), Some(Request::LoadModule(Module::Compiler)));
    assert_eq!(session.source().to_vec(), SOURCE.as_bytes().to_vec());
    assert_eq!(session.source().encoding(), Some(CP_UTF8));
    let call = session.call();
    assert_eq!(call.source_name, wide("shader.hlsl"));
    assert_eq!(call.entry_point, vec![0x6d, 0x61, 0x69, 0x6e, 0]);
    assert_eq!(call.target_profile, wide("ps_6_0"));
    assert_eq!(call.arguments, vec![wide("-spirv"), wide("-Zi")]);
    assert_eq!(call.defines.len(), 3);
    assert_eq!(call.defines[0].name, wide("FAST"));
    assert_eq!(call.defines[0].value, None);
    assert_eq!(call.defines[1].name, wide("LEVEL"));
    assert_eq!(call.defines[1].value, Some(vec![0x33, 0]));
    assert_eq!(call.defines[2].value, Some(vec![0]));
}

#[test]
fn compile_hlsl_marshals_for_either_width() {
    let session: CompileSession<u32, SourceTable> =
        compile_hlsl("\u{1F600}.hlsl", "", "main", "cs_6_0", &[], &[], includes());
    assert_eq!(session.call().source_name, vec![0x1F600, 0x2e, 0x68, 0x6c, 0x73, 0x6c, 0]);
    assert_eq!(session.source().len(), 0);
}

#[test]
fn compile_hlsl_refuses_the_first_text_with_a_nul() {
    let refused = |session: Compilation| {
        assert_eq!(session.request(), Some(Request::LoadModule(Module::Compiler)));
        assert_eq!(session.source().to_vec(), session.source().as_slice().to_vec());
        session.refusal().map(|e| e.position)
    };
    let t = includes;
    assert_eq!(refused(compile_hlsl("a\0", SOURCE, "\0", "ps_6_0", &[], &[], t())), Some(1));
    assert_eq!(refused(compile_hlsl("a", SOURCE, "main\0x", "\0", &[], &[], t())), Some(4));
    assert_eq!(refused(compile_hlsl("a", SOURCE, "main", "ps\0", &["\0"], &[], t())), Some(2));
    assert_eq!(
        refused(compile_hlsl("a", SOURCE, "main", "ps_6_0", &["-Zi", "-O\03", "\0"], &[("\0", None)], t())),
        Some(2)
    );
    assert_eq!(
        refused(compile_hlsl("a", SOURCE, "main", "ps_6_0", &["-Zi"], &[("A", None), ("ABC\0", Some("\0"))], t())),
        Some(3)
    );
    assert_eq!(
        refused(compile_hlsl("a", SOURCE, "main", "ps_6_0", &[], &[("A", Some("12345\0")), ("\0", None)], t())),
        Some(5)
    );
    assert_eq!(refused(compile_hlsl("a", "\0 is fine in the source", "main", "ps_6_0", &[], &[], t())), None);
}

#[test]
fn a_compilation_that_succeeds_yields_the_result_blob() {
    let mut session = pixel_shader();
    let (asked, done) = run_compile(
        &mut session,
        vec![
            Reply::Loaded,
            Reply::Status(0),
            Reply::Status(0),
            Reply::Status(0),
            Reply::Completed { call: 0, status: 0 },
            Reply::Status(0),
            Reply::Contents(vec![0x44, 0x58, 0x42, 0x43]),
        ],
    );
    assert_eq!(
        asked,
        vec![
            Request::LoadModule(Module::Compiler),
            create(Module::Compiler, DxcClass::Compiler, DxcInterface::Compiler),
            create(Module::Compiler, DxcClass::Library, DxcInterface::Library),
            Request::CreateBlob,
            Request::Compile,
            Request::GetResult,
            Request::ReadResult,
        ]
    );
    let bytes = done.unwrap().unwrap();
    assert!(!bytes.is_empty());
    assert_eq!(bytes, vec![0x44, 0x58, 0x42, 0x43]);
    assert_eq!(session.request(), None);
}

#[test]
fn a_compilation_that_fails_yields_the_diagnostics() {
    let diagnostics = "shader.hlsl:1:1: error: expected '}'\n";
    for (call, status) in [(0, 1u32), (E_FAIL, 0), (E_FAIL, 0x80004005), (1, 0)] {
        let mut session: Compilation =
            compile_hlsl("shader.hlsl", "float4 main() {", "main", "ps_6_0", &[], &[], includes());
        let (asked, done) = run_compile(
            &mut session,
            vec![
                Reply::Loaded,
                Reply::Status(0),
                Reply::Status(0),
                Reply::Status(0),
                Reply::Completed { call, status },
                Reply::Status(0),
                Reply::Contents(diagnostics.as_bytes().to_vec()),
            ],
        );
        assert_eq!(asked[5], Request::GetErrorBuffer);
        assert_eq!(asked[6], Request::ReadErrorText);
        match done {
            Some(Err(HassleError::CompileError(message))) => {
                assert!(!message.is_empty());
                assert_eq!(message, diagnostics);
            }
            other => panic!("{:?}", other),
        }
        assert_eq!(session.request(), None);
    }
}

#[test]
fn a_compilation_without_the_library_names_the_library() {
    let mut session = pixel_shader();
    let (asked, done) = run_compile(
        &mut session,
        vec![Reply::LoadFailed {
            filename: String::from("libdxcompiler.so"),
            inner: libloading::Error::DlOpenUnknown,
        }],
    );
    assert_eq!(asked, vec![Request::LoadModule(Module::Compiler)]);
    assert!(matches!(
        done,
        Some(Err(HassleError::LoadLibraryError {
            ref filename,
            inner: libloading::Error::DlOpenUnknown
        })) if filename == "libdxcompiler.so"
    ));
    assert_eq!(session.request(), None);
}

#[test]
fn a_compilation_without_the_entry_point_says_so() {
    for created in [0, 1] {
        let mut replies = vec![Reply::Loaded];
        for _ in 0..created {
            replies.push(Reply::Status(0));
        }
        replies.push(Reply::SymbolMissing(libloading::Error::DlSymUnknown));
        let (_, done) = run_compile(&mut pixel_shader(), replies);
        assert!(matches!(
            done,
            Some(Err(HassleError::LibLoadingError(libloading::Error::DlSymUnknown)))
        ));
    }
}

#[test]
fn a_compilation_ends_on_the_first_status_of_failure_with_that_status() {
    let before = [
        vec![Reply::Loaded],
        vec![Reply::Loaded, Reply::Status(0)],
        vec![Reply::Loaded, Reply::Status(0), Reply::Status(0)],
        vec![
            Reply::Loaded,
            Reply::Status(0),
            Reply::Status(0),
            Reply::Status(0),
            Reply::Completed { call: 0, status: 0 },
        ],
        vec![
            Reply::Loaded,
            Reply::Status(0),
            Reply::Status(0),
            Reply::Status(0),
            Reply::Completed { call: E_FAIL, status: 0 },
        ],
    ];
    for (i, mut replies) in before.into_iter().enumerate() {
        let code = [E_FAIL, 1, -1, i32::MIN, i32::MAX][i];
        replies.push(Reply::Status(code));
        let mut session = pixel_shader();
        let (_, done) = run_compile(&mut session, replies);
        assert!(matches!(done, Some(Err(HassleError::Win32Error(hr))) if hr == code));
        assert_eq!(session.request(), None);
    }
}

#[test]
fn diagnostics_that_are_no_utf8_are_an_error_of_their_own() {
    let mut session = pixel_shader();
    let (_, done) = run_compile(
        &mut session,
        vec![
            Reply::Loaded,
            Reply::Status(0),
            Reply::Status(0),
            Reply::Status(0),
            Reply::Completed { call: 0, status: 1 },
            Reply::Status(0),
            Reply::Contents(vec![0x65, 0x72, 0xff]),
        ],
    );
    match done {
        Some(Err(HassleError::Utf8Error(e))) => assert_eq!(e.valid_up_to(), 2),
        other => panic!("{:?}", other),
    }
}

#[test]
fn a_compilation_with_empty_diagnostics_still_fails() {
    let (_, done) = run_compile(
        &mut pixel_shader(),
        vec![
            Reply::Loaded,
            Reply::Status(0),
            Reply::Status(0),
            Reply::Status(0),
            Reply::Completed { call: 0, status: 1 },
            Reply::Status(0),
            Reply::Contents(Vec::new()),
        ],
    );
    assert!(matches!(done, Some(Err(HassleError::CompileError(ref m))) if m.is_empty()));
}

#[test]
fn validate_dxil_wraps_the_container() {
    let session = validate_dxil(&[0x44, 0x58, 0x42, 0x43, 0, 1]);
    assert_eq!(session.request(), Some(Request::LoadModule(Module::Compiler)));
    assert_eq!(session.container().to_vec(), vec![0x44, 0x58, 0x42, 0x43, 0, 1]);
    assert_eq!(session.container().encoding(), None);
}

#[test]
fn a_validation_that_succeeds_yields_the_container_as_it_was_left() {
    let mut session = validate_dxil(&[0x44, 0x58, 0x42, 0x43, 0, 0]);
    let (asked, done) = run_validate(
        &mut session,
        vec![
            Reply::Loaded,
            Reply::Loaded,
            Reply::Status(0),
            Reply::Status(0),
            Reply::Status(0),
            Reply::Completed { call: 0, status: 0 },
            Reply::Contents(vec![0x44, 0x58, 0x42, 0x43, 0xaa, 0xbb]),
        ],
    );
    assert_eq!(
        asked,
        vec![
            Request::LoadModule(Module::Compiler),
            Request::LoadModule(Module::Validator),
            create(Module::Validator, DxcClass::Validator, DxcInterface::Validator),
            create(Module::Compiler, DxcClass::Library, DxcInterface::Library),
            Request::CreateBlob,
            Request::Validate { flags: DXC_VALIDATOR_FLAGS_IN_PLACE_EDIT },
            Request::ReadContainer,
        ]
    );
    assert_eq!(done.unwrap().unwrap(), vec![0x44, 0x58, 0x42, 0x43, 0xaa, 0xbb]);
    assert_eq!(session.request(), None);
}

#[test]
fn a_validation_that_fails_yields_the_diagnostics() {
    for (call, status) in [(0, 1u32), (E_FAIL, 0)] {
        let mut session = validate_dxil(&[1, 2, 3]);
        let (asked, done) = run_validate(
            &mut session,
            vec![
                Reply::Loaded,
                Reply::Loaded,
                Reply::Status(0),
                Reply::Status(0),
                Reply::Status(0),
                Reply::Completed { call, status },
                Reply::Status(0),
                Reply::Contents(b"Invalid container".to_vec()),
            ],
        );
        assert_eq!(asked[6], Request::GetErrorBuffer);
        assert_eq!(asked[7], Request::ReadErrorText);
        assert!(matches!(
            done,
            Some(Err(HassleError::ValidationError(ref m))) if m == "Invalid container"
        ));
    }
}

#[test]
fn a_validation_without_either_library_names_the_library() {
    for (loaded, name) in [(0, "dxcompiler.dll"), (1, "dxil.dll")] {
        let mut replies = Vec::new();
        for _ in 0..loaded {
            replies.push(Reply::Loaded);
        }
        replies.push(Reply::LoadFailed {
            filename: String::from(name),
            inner: libloading::Error::DlOpenUnknown,
        });
        let (asked, done) = run_validate(&mut validate_dxil(&[]), replies);
        assert_eq!(asked.len(), loaded + 1);
        assert!(matches!(
            done,
            Some(Err(HassleError::LoadLibraryError { ref filename, .. })) if filename == name
        ));
    }
}

#[test]
fn a_validation_ends_on_the_first_status_of_failure_with_that_status() {
    for successes in 0..3 {
        let mut replies = vec![Reply::Loaded, Reply::Loaded];
        for _ in 0..successes {
            replies.push(Reply::Status(0));
        }
        replies.push(Reply::Status(E_FAIL + successes));
        let (_, done) = run_validate(&mut validate_dxil(&[9]), replies);
        assert!(matches!(done, Some(Err(HassleError::Win32Error(hr))) if hr == E_FAIL + successes));
    }
    let (_, done) = run_validate(
        &mut validate_dxil(&[9]),
        vec![
            Reply::Loaded,
            Reply::Loaded,
            Reply::Status(0),
            Reply::Status(0),
            Reply::Status(0),
            Reply::Completed { call: 0, status: 7 },
            Reply::Status(-7),
        ],
    );
    assert!(matches!(done, Some(Err(HassleError::Win32Error(-7)))));
    let (_, done) = run_validate(
        &mut validate_dxil(&[9]),
        vec![Reply::Loaded, Reply::Loaded, Reply::SymbolMissing(libloading::Error::DlSymUnknown)],
    );
    assert!(matches!(done, Some(Err(HassleError::LibLoadingError(_)))));
}

#[test]
fn a_reply_answers_only_the_calls_of_its_kind() {
    let requests = [
        Request::LoadModule(Module::Validator),
        create(Module::Compiler, DxcClass::Compiler, DxcInterface::Compiler),
        Request::CreateBlob,
        Request::Compile,
        Request::Validate { flags: 1 },
        Request::GetErrorBuffer,
        Request::ReadErrorText,
        Request::GetResult,
        Request::ReadResult,
        Request::ReadContainer,
    ];
    let answered = |reply: Reply| requests.map(|request| reply.is_answer_to(request));
    let (y, n) = (true, false);
    assert_eq!(answered(Reply::Loaded), [y, n, n, n, n, n, n, n, n, n]);
    assert_eq!(
        answered(Reply::LoadFailed {
            filename: String::new(),
            inner: libloading::Error::DlOpenUnknown
        }),
        [y, n, n, n, n, n, n, n, n, n]
    );
    assert_eq!(
        answered(Reply::SymbolMissing(libloading::Error::DlSymUnknown)),
        [n, y, n, n, n, n, n, n, n, n]
    );
    assert_eq!(answered(Reply::Status(0)), [n, y, y, n, n, y, n, y, n, n]);
    assert_eq!(answered(Reply::Completed { call: 0, status: 0 }), [n, n, n, y, y, n, n, n, n, n]);
    assert_eq!(answered(Reply::Contents(Vec::new())), [n, n, n, n, n, n, y, n, y, y]);
}

#[test]
fn a_step_is_the_same_inside_and_outside_a_session() {
    assert!(matches!(
        compile_step(Request::CreateBlob, Reply::Status(0), None),
        Step::Next(Request::Compile)
    ));
    assert!(matches!(
        compile_step(Request::GetResult, Reply::Status(3), None),
        Step::Done(Err(HassleError::Win32Error(3)))
    ));
    assert!(matches!(
        compile_step(Request::CreateBlob, Reply::Status(0), Some(NulError { position: 7 })),
        Step::Done(Err(HassleError::NulError(NulError { position: 7 })))
    ));
    assert!(matches!(
        compile_step(Request::CreateBlob, Reply::Status(-3), Some(NulError { position: 7 })),
        Step::Done(Err(HassleError::Win32Error(-3)))
    ));
    assert!(matches!(
        compile_step(Request::GetErrorBuffer, Reply::Status(0), Some(NulError { position: 7 })),
        Step::Next(Request::ReadErrorText)
    ));
    assert!(matches!(
        validate_step(Request::CreateBlob, Reply::Status(0)),
        Step::Next(Request::Validate { flags: 1 })
    ));
    assert!(matches!(
        validate_step(Request::ReadContainer, Reply::Contents(vec![1])),
        Step::Done(Ok(ref bytes)) if bytes == &[1]
    ));
}

#[test]
fn a_compilation_serves_the_requests_for_sources_while_it_compiles() {
    let mut session = pixel_shader();
    let (_, done) = run_compile(
        &mut session,
        vec![Reply::Loaded, Reply::Status(0), Reply::Status(0), Reply::Status(0)],
    );
    assert!(done.is_none());
    assert_eq!(session.request(), Some(Request::Compile));
    let found = session.serve(&wide("common.hlsl"));
    assert_eq!(found.status, S_OK);
    assert_eq!(found.source.unwrap().to_vec(), b"float4 one() { return 1; }".to_vec());
    assert_eq!(session.serve(&wide("other.hlsl")).status, E_FILE_NOT_FOUND);
    assert_eq!(session.serve(&wide("common.hlsl")).status, S_OK);
    assert_eq!(*session.server().names(), vec!["common.hlsl", "other.hlsl", "common.hlsl"]);
    assert_eq!(session.request(), Some(Request::Compile));
    assert_eq!(session.call().entry_point, wide("main"));
    let (_, done) = run_compile(
        &mut session,
        vec![
            Reply::Completed { call: 0, status: 0 },
            Reply::Status(0),
            Reply::Contents(vec![1, 2, 3]),
        ],
    );
    assert_eq!(done.unwrap().unwrap(), vec![1, 2, 3]);
    assert_eq!(session.server().names().len(), 3);
}

#[test]
fn two_compilations_of_the_same_put_the_same_names_and_get_the_same_answers() {
    let run = || {
        let mut session = pixel_shader();
        let mut answers = Vec::new();
        for name in ["b.hlsl", "common.hlsl", "a.hlsl"] {
            let response = session.serve(&wide(name));
            answers.push((response.status, response.source.map(|blob| blob.to_vec())));
        }
        (session.server().names().clone(), answers)
    };
    assert_eq!(run(), run());
    assert_eq!(run().0, vec!["b.hlsl", "common.hlsl", "a.hlsl"]);
}

#[test]
fn a_text_with_a_nul_ends_the_compilation_in_place_of_the_compiler_call() {
    let mut session = nul_in_the_name();
    assert_eq!(session.refusal(), Some(NulError { position: 3 }));
    assert_eq!(session.source().to_vec(), SOURCE.as_bytes().to_vec());
    let (asked, done) = run_compile(
        &mut session,
        vec![Reply::Loaded, Reply::Status(0), Reply::Status(0), Reply::Status(0)],
    );
    assert_eq!(
        asked,
        vec![
            Request::LoadModule(Module::Compiler),
            create(Module::Compiler, DxcClass::Compiler, DxcInterface::Compiler),
            create(Module::Compiler, DxcClass::Library, DxcInterface::Library),
            Request::CreateBlob,
        ]
    );
    assert!(matches!(done, Some(Err(HassleError::NulError(NulError { position: 3 })))));
    assert_eq!(session.request(), None);
    assert!(session.server().names().is_empty());
}

#[test]
fn a_missing_library_is_reported_whatever_the_texts_are() {
    let mut session = nul_in_the_name();
    let (asked, done) = run_compile(
        &mut session,
        vec![Reply::LoadFailed {
            filename: String::from("dxcompiler.dll"),
            inner: libloading::Error::DlOpenUnknown,
        }],
    );
    assert_eq!(asked, vec![Request::LoadModule(Module::Compiler)]);
    assert!(matches!(
        done,
        Some(Err(HassleError::LoadLibraryError { ref filename, .. })) if filename == "dxcompiler.dll"
    ));
    assert!(session.server().names().is_empty());
    let other: Compilation = compile_hlsl("\0", "\0", "\0", "\0", &["\0"], &[("\0", Some("\0"))], includes());
    let mut other = other;
    let (_, done) = run_compile(
        &mut other,
        vec![Reply::LoadFailed {
            filename: String::from("./libdxcompiler.so"),
            inner: libloading::Error::DlOpenUnknown,
        }],
    );
    assert!(matches!(
        done,
        Some(Err(HassleError::LoadLibraryError { ref filename, .. })) if filename == "./libdxcompiler.so"
    ));
}

#[test]
fn a_failure_before_the_compiler_call_is_reported_whatever_the_texts_are() {
    let (_, done) = run_compile(
        &mut nul_in_the_name(),
        vec![Reply::Loaded, Reply::Status(0), Reply::Status(0), Reply::Status(E_FAIL)],
    );
    assert!(matches!(done, Some(Err(HassleError::Win32Error(E_FAIL)))));
    let (_, done) = run_compile(&mut nul_in_the_name(), vec![Reply::Loaded, Reply::Status(-5)]);
    assert!(matches!(done, Some(Err(HassleError::Win32Error(-5)))));
    let (_, done) = run_compile(
        &mut nul_in_the_name(),
        vec![Reply::Loaded, Reply::Status(0), Reply::Status(7)],
    );
    assert!(matches!(done, Some(Err(HassleError::Win32Error(7)))));
    let (_, done) = run_compile(
        &mut nul_in_the_name(),
        vec![Reply::Loaded, Reply::SymbolMissing(libloading::Error::DlSymUnknown)],
    );
    assert!(matches!(done, Some(Err(HassleError::LibLoadingError(_)))));
}
