use shader_preview::glsl::AnnotatedGLSL;
use shader_preview::ogl::ChannelCount;
use shader_preview::ogl::TextureComponentDataType;
use shader_preview::ogl::FunctionPointers;
use shader_preview::ogl::GlCall;
use shader_preview::ogl::Image;
use shader_preview::ogl::OGLError;
use shader_preview::ogl::INVALID_VALUE;
use shader_preview::ogl::OUT_OF_MEMORY;
use shader_preview::raii::Shader;
use shader_preview::runtime::Reload;
use shader_preview::runtime::RuntimeSetup;
use shader_preview::runtime::RuntimeState;
use shader_preview::runtime::Settled;
use shader_preview::shaders::ERROR_SHADER;
use shader_preview::timeline::Timeline;

fn picture(byte: u8) -> Image {
    Image {
        data: Some(vec![byte; 3]),
        resolution: [1, 1],
        channels: ChannelCount::Three,
        component: TextureComponentDataType::UnsignedByte,
    }
}

fn done(reload: Reload, pointers: &mut FunctionPointers) -> RuntimeState {
    match reload.settle(pointers, Ok(())) {
        Settled::Done(state) => state,
        _ => panic!(),
    }
}

fn started(pointers: &mut FunctionPointers) -> RuntimeState {
    let reload = RuntimeState::new(pointers, TextureComponentDataType::Float).unwrap();
    let state = done(reload, pointers);
    pointers.take_calls();
    state
}

fn plain_setup() -> RuntimeSetup {
    RuntimeSetup { resolution: [64, 32], feedback: false, timeline: Timeline::default(), textures: Vec::new() }
}

fn sources(calls: &[GlCall]) -> Vec<String> {
    let mut found = Vec::new();
    for call in calls {
        if let GlCall::CompileShader { source, stage, .. } = call {
            if *stage == shader_preview::ogl::FRAGMENT_SHADER {
                found.push(source.clone());
            }
        }
    }
    found
}

#[test]
fn machine_starts_errored_with_an_empty_message() {
    let mut pointers = FunctionPointers::new();
    let reload = RuntimeState::new(&mut pointers, TextureComponentDataType::Float).unwrap();
    assert_eq!(reload.message(), Some(""));
    let calls = pointers.take_calls();
    assert_eq!(calls.len(), 3 + 9 + 1 + 11 + 7);
    assert_eq!(sources(&calls)[0], ERROR_SHADER);
    let state = done(reload, &mut pointers);
    assert!(pointers.take_calls().is_empty());
    assert_eq!(state.resolution(), [500, 500]);
    assert_eq!(state.component(), TextureComponentDataType::Float);
    match state {
        RuntimeState::Errored(errored) => {
            assert_eq!(errored.message(), "");
            assert!(!errored.player().feedback());
            assert_eq!(errored.player().timeline().fps(), 60);
            assert_eq!(errored.player().timeline().range(), None);
        }
        RuntimeState::Running(_) => panic!(),
    }
}

#[test]
fn reload_that_is_run_leaves_the_machine_running() {
    let mut pointers = FunctionPointers::new();
    let state = started(&mut pointers);
    let reload = state.restart(&mut pointers, "void main() {}", plain_setup()).unwrap();
    assert_eq!(reload.message(), None);
    let calls = pointers.take_calls();
    // the diagnostic player is given up before the next player is made
    assert_eq!(calls[0], GlCall::DeleteBuffer(0));
    assert_eq!(calls[10], GlCall::DeleteTexture(10));
    assert_eq!(calls[11], GlCall::GenBuffer(11));
    assert_eq!(sources(&calls)[0], "void main() {}");
    let state = done(reload, &mut pointers);
    assert!(matches!(state, RuntimeState::Running(_)));
    assert_eq!(state.resolution(), [64, 32]);
    assert_eq!(state.component(), TextureComponentDataType::Float);
}

#[test]
fn failed_compilation_leaves_the_machine_errored_with_the_log() {
    let mut pointers = FunctionPointers::new();
    let state = started(&mut pointers);
    let reload = state.restart(&mut pointers, "nil", plain_setup()).unwrap();
    pointers.take_calls();
    let verdict = Shader::compiled(0, Some(String::from("0(1) : error C0000: syntax error")));
    let reload = match reload.settle(&mut pointers, verdict) {
        Settled::Retry(reload) => reload,
        _ => panic!(),
    };
    assert_eq!(reload.message(), Some("0(1) : error C0000: syntax error"));
    let calls = pointers.take_calls();
    // the player that failed is given up, then the diagnostic player is made
    assert_eq!(calls[0], GlCall::DeleteBuffer(11));
    assert_eq!(calls[11], GlCall::GenBuffer(22));
    assert_eq!(sources(&calls)[0], ERROR_SHADER);
    let mut state = done(reload, &mut pointers);
    match &state {
        RuntimeState::Errored(errored) => {
            assert!(errored.message().contains("C0000"));
        }
        RuntimeState::Running(_) => panic!(),
    }
    assert!(state.refresh(&mut pointers));
    pointers.take_calls();
    // the corrected source brings the machine back
    let reload = state.restart(&mut pointers, "void main() {}", plain_setup()).unwrap();
    let state = done(reload, &mut pointers);
    assert!(matches!(state, RuntimeState::Running(_)));
}

#[test]
fn failure_of_the_diagnostic_player_is_final() {
    let mut pointers = FunctionPointers::new();
    let reload = RuntimeState::new(&mut pointers, TextureComponentDataType::Float).unwrap();
    pointers.take_calls();
    match reload.settle(&mut pointers, Err(OGLError::ProgramLinking(String::from("no")))) {
        Settled::Failed(error) => assert_eq!(error, OGLError::ProgramLinking(String::from("no"))),
        _ => panic!(),
    }
    assert_eq!(pointers.take_calls()[0], GlCall::DeleteBuffer(0));
}

#[test]
fn failure_without_names_for_the_diagnostic_player_is_final() {
    let mut pointers = FunctionPointers::resume(u32::MAX - 22);
    let state = started(&mut pointers);
    let reload = state.restart(&mut pointers, "nil", plain_setup()).unwrap();
    match reload.settle(&mut pointers, Err(OGLError::UniformNotFound(String::from("a")))) {
        Settled::Failed(error) => assert_eq!(error, OGLError::GL(OUT_OF_MEMORY)),
        _ => panic!(),
    }
    let mut pointers = FunctionPointers::resume(u32::MAX - 10);
    assert_eq!(
        RuntimeState::new(&mut pointers, TextureComponentDataType::Float).err(),
        Some(OGLError::GL(OUT_OF_MEMORY))
    );
}

#[test]
fn reload_without_names_falls_back_to_the_diagnostic_player() {
    let mut pointers = FunctionPointers::resume(u32::MAX - 11 - 12);
    let state = started(&mut pointers);
    let setup = RuntimeSetup { feedback: true, ..plain_setup() };
    let reload = state.restart(&mut pointers, "void main() {}", setup).unwrap();
    assert_eq!(reload.message(), Some("There is not enough memory left to execute the command"));
    assert_eq!(sources(&pointers.take_calls())[0], ERROR_SHADER);
}

#[test]
fn machine_goes_errored_on_a_message() {
    let mut pointers = FunctionPointers::new();
    let state = started(&mut pointers);
    let reload = state.restart(&mut pointers, "void main() {}", plain_setup()).unwrap();
    let state = done(reload, &mut pointers);
    pointers.take_calls();
    let reload = state.into_errored(&mut pointers, "Non-ASCII characters found").unwrap();
    assert_eq!(reload.message(), Some("Non-ASCII characters found"));
    let calls = pointers.take_calls();
    assert_eq!(calls[0], GlCall::DeleteBuffer(11));
    assert_eq!(sources(&calls)[0], ERROR_SHADER);
    let state = done(reload, &mut pointers);
    match state {
        RuntimeState::Errored(errored) => assert_eq!(errored.message(), "Non-ASCII characters found"),
        RuntimeState::Running(_) => panic!(),
    }
}

#[test]
fn refresh_goes_to_the_current_player() {
    let mut pointers = FunctionPointers::new();
    let mut state = started(&mut pointers);
    assert!(state.refresh(&mut pointers));
    assert!(!pointers.take_calls().is_empty());
    assert!(!state.refresh(&mut pointers));
    assert!(pointers.take_calls().is_empty());
}

#[test]
fn setup_takes_the_settings_and_names_the_textures() {
    let annotated = AnnotatedGLSL::new(
        "#define size 320 200\n#define rate 30\n#define loop 90\nuniform sampler2D previous;\nuniform sampler2D wood @ wood.png;\nuniform sampler2D sky @ sky.jpg;\n",
    )
    .unwrap();
    let mut pointers = FunctionPointers::new();
    let setup = annotated
        .annotations()
        .runtime_setup(&mut pointers, vec![picture(1), picture(2)])
        .unwrap();
    assert_eq!(setup.resolution, [320, 200]);
    assert!(setup.feedback);
    assert_eq!(setup.timeline.fps(), 30);
    assert_eq!(setup.timeline.range(), Some(90));
    assert_eq!(setup.textures.len(), 2);
    assert_eq!(setup.textures[0].name(), "wood");
    assert_eq!(setup.textures[1].name(), "sky");
    let calls = pointers.take_calls();
    assert_eq!(calls.len(), 8);
    assert_eq!(calls[0], GlCall::GenTexture(0));
    assert_eq!(calls[3], GlCall::FillTexture { image: picture(1), mipmap: false });
    assert_eq!(calls[4], GlCall::GenTexture(1));
    assert_eq!(calls[7], GlCall::FillTexture { image: picture(2), mipmap: false });
    assert_eq!(annotated.code(), "#define size 320 200\n#define rate 30\n#define loop 90\nuniform sampler2D previous;\nuniform sampler2D wood ;\nuniform sampler2D sky ;\n");
}

#[test]
fn setup_wants_one_image_for_each_binding() {
    let annotated = AnnotatedGLSL::new("uniform sampler2D wood @ wood.png;\nxx").unwrap();
    let mut pointers = FunctionPointers::new();
    assert_eq!(
        annotated.annotations().runtime_setup(&mut pointers, Vec::new()).err(),
        Some(OGLError::GL(INVALID_VALUE))
    );
    assert_eq!(
        annotated.annotations().runtime_setup(&mut pointers, vec![picture(1), picture(2)]).err(),
        Some(OGLError::GL(INVALID_VALUE))
    );
    assert!(pointers.take_calls().is_empty());
    let mut pointers = FunctionPointers::resume(u32::MAX);
    assert_eq!(
        annotated.annotations().runtime_setup(&mut pointers, vec![picture(1)]).err(),
        Some(OGLError::GL(OUT_OF_MEMORY))
    );
}
