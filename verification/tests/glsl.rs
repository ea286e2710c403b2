use shader_preview::directives::Directive;
use shader_preview::directives::NumberFault;
use shader_preview::glsl::AnnotatedGLSL;
use shader_preview::glsl::GLSLCode;
use shader_preview::glsl::GLSLError;
use shader_preview::timeline::FrameRange;

#[test]
fn strip_comments() -> ()
{
    for [input, stripped] in
    [
        ["a", "a"],
        ["abc", "abc"],
        ["abc\n", "abc\n"],
        ["abc\ndef", "abc\ndef"],
        ["abc//def", "abc\n"],
        ["abc//def\n", "abc\n"],
        ["abc/*def", "abc"],
        ["abc//def\nghi//jkl", "abc\nghi\n"],
        ["abc/*def*/ghi", "abcghi"],
        ["abc/*def\nghi*/jkl", "abcjkl"],
        ["abc/*/*def*/*/ghi", "abcghi"],
        ["abc/*//def*/ghi", "abcghi"],
        ["/**/a", "a"]
    ]
    {
        let code = String::from(input);
        let mut code = GLSLCode::new(&code).unwrap();
        code = code.strip_comments();
        assert_eq!(code.as_ref(), stripped)
    }
}

#[test]
fn parse() -> ()
{
    let annotated = AnnotatedGLSL::new
    (
        "
        ...
        #define size 200 200
        #define size 500 500
        //#define size 800 800
        #define rate 25
        #define loop 100
        // ...
        uniform sampler2D a @ imag/**/es/a.jpg;
        uniform sampler2D b @ b.jpg;
        // uniform sampler2D c @ c.jpg;
        uniform sampler/**/2D d @ d d/**/;
        uniform sampler2D 
            e
            @/**/
            e//

            ;

        "
    ).unwrap();
    let annotations = annotated.annotations();
    let resolution = annotations.resolution();
    let rate = annotations.rate();
    let range = annotations.range();
    let texture_paths = annotations.texture_paths();
    assert_eq!(resolution, [500, 500]);
    assert_eq!(rate.0.get(), 25);
    match range
    {
        FrameRange::Bounded(end)
            => assert_eq!(end.get(), 100),
        _ => panic!()
    }
    assert_eq!(texture_paths.len(), 4);
    for (key, value) in texture_paths
    {
        let value = value.as_str();
        match key.as_str()
        {
            "a" => assert_eq!(value, "images/a.jpg"),
            "b" => assert_eq!(value, "b.jpg"),
            "d" => assert_eq!(value, "d d"),
            "e" => assert_eq!(value, "e"),
            _ => unreachable!()
        }
    }
}

#[test]
fn strip_keeps_text_without_comments() {
    for text in [
        "",
        "\n",
        "ab",
        "a\nb",
        "ab\ncd",
        "ab\n",
        "a\n\nb\n\n",
        "void main()\n{\n}\n",
        "a\rb",
        "ab\r\ncd\r\n",
        "a*/b",
        "a / b * c",
        "*",
        "/",
        "a/",
    ] {
        let code = GLSLCode::new(text).unwrap().strip_comments();
        assert_eq!(code.as_ref(), text);
    }
}

#[test]
fn strip_twice_is_strip_once() {
    for text in [
        "abc//def",
        "abc//def\n",
        "abc/*def*/ghi",
        "ab/*\n*/cd\nef",
        "abc/*/*def*/*/ghi\nxy",
        "x = a*/*c*/b;",
        "a/*b*///c",
        "a/*b*/*c",
        "a*/*b*//c",
        "/**///x",
        "a\n//\n\nb//\n",
        "/*",
        "//",
    ] {
        let once = GLSLCode::new(text).unwrap().strip_comments();
        let twice = once.strip_comments();
        assert_eq!(once.as_ref(), twice.as_ref(), "input {:?}", text);
    }
    let once = GLSLCode::new("abc//def").unwrap().strip_comments();
    assert_eq!(once.as_ref(), "abc\n");
    assert_eq!(once.strip_comments().as_ref(), "abc\n");
}

#[test]
fn strip_edge_cases() {
    for [input, stripped] in [
        ["// only", "\n"],
        ["ab//", "ab\n"],
        ["ab//c\r\nd", "ab\nd"],
        ["a//b\n\nc", "a\n\nc"],
        ["/*\na\n*/", ""],
        ["/*\na\n*/b", "b"],
        ["a*/b", "a*/b"],
        ["x = a*/*c*/b;", "x = a*b;"],
        ["ab/*c*/", "ab"],
        ["ab/*c*/\nd", "ab\nd"],
        ["ab/*c*/d\nef", "abd\nef"],
        ["/**/a\nb", "a\nb"],
        ["/**///x", "\n"],
        ["/*/*a*/b*/cd", "cd"],
        ["a/*b", "a"],
        ["a/*b*/ /*c*/d", "a d"],
        ["a//b/*c\nd*/e", "a\nd*/e"],
        ["a/*//*/b", "a"],
        ["a/*// */b", "ab"],
        ["a/*/b*/c", "ac"],
        ["}\n{", "}\n{"],
    ] {
        let code = GLSLCode::new(input).unwrap().strip_comments();
        assert_eq!(code.as_ref(), stripped, "input {:?}", input);
    }
}

#[test]
fn directive_behind_a_short_line_is_read() {
    let annotated = AnnotatedGLSL::new("}\n#define rate 25").unwrap();
    assert_eq!(annotated.annotations().rate().0.get(), 25);
    assert_eq!(annotated.code(), "}\n#define rate 25");
    let annotated = AnnotatedGLSL::new("x\n\n#define loop 7\n;\n#define size 3 4\n").unwrap();
    assert_eq!(annotated.annotations().range().end(), Some(7));
    assert_eq!(annotated.annotations().resolution(), [3, 4]);
}

#[test]
fn non_ascii_is_refused() {
    assert!(GLSLCode::new("caf\u{e9}").is_err());
    assert_eq!(AnnotatedGLSL::new("// \u{e9}\nvoid main() {}").err(), Some(GLSLError::NonAscii));
    assert_eq!(GLSLError::NonAscii.message(), "Non-ASCII characters found");
}

#[test]
fn defaults_without_directives() {
    let annotated = AnnotatedGLSL::new("void main() {}").unwrap();
    let annotations = annotated.annotations();
    assert_eq!(annotations.resolution(), [500, 500]);
    assert_eq!(annotations.rate().0.get(), 60);
    assert!(matches!(annotations.range(), FrameRange::Endless));
    assert!(!annotations.feedback());
    assert!(annotations.texture_paths().is_empty());
    assert_eq!(annotated.code(), "void main() {}");
}

#[test]
fn last_size_wins() {
    let annotated = AnnotatedGLSL::new("#define size 200 200\nxx\n#define size 500 500\nyy").unwrap();
    assert_eq!(annotated.annotations().resolution(), [500, 500]);
    let annotated = AnnotatedGLSL::new("  #define size 500 500  \nxx\n\t#define size +640  0480 \nyy").unwrap();
    assert_eq!(annotated.annotations().resolution(), [640, 480]);
}

#[test]
fn binding_is_read_and_taken_out() {
    let annotated = AnnotatedGLSL::new("uniform sampler2D a @ images/a.jpg;\nvoid main() {}").unwrap();
    let paths = annotated.annotations().texture_paths();
    assert_eq!(paths.len(), 1);
    assert_eq!(paths[0].0, "a");
    assert_eq!(paths[0].1, "images/a.jpg");
    assert_eq!(annotated.code(), "uniform sampler2D a ;\nvoid main() {}");
}

#[test]
fn four_bindings_stay_apart() {
    let annotated = AnnotatedGLSL::new(
        "uniform sampler2D a @ a.png;\nuniform sampler2D b @ /*x*/b.png;\nuniform sampler2D c@c.png;\nuniform sampler2D d @ d/**/.png ;\n",
    ).unwrap();
    let paths = annotated.annotations().texture_paths();
    let names: Vec<&str> = paths.iter().map(|(name, _)| name.as_str()).collect();
    let files: Vec<&str> = paths.iter().map(|(_, path)| path.as_str()).collect();
    assert_eq!(names, vec!["a", "b", "c", "d"]);
    assert_eq!(files, vec!["a.png", "b.png", "c.png", "d.png"]);
}

#[test]
fn later_binding_of_a_name_replaces_the_path() {
    let annotated = AnnotatedGLSL::new(
        "uniform sampler2D a @ one.png;\nuniform sampler2D b @ two.png;\nuniform sampler2D a @ three.png;\n",
    ).unwrap();
    let paths = annotated.annotations().texture_paths();
    assert_eq!(paths.len(), 2);
    assert_eq!((paths[0].0.as_str(), paths[0].1.as_str()), ("a", "three.png"));
    assert_eq!((paths[1].0.as_str(), paths[1].1.as_str()), ("b", "two.png"));
}

#[test]
fn binding_takes_the_first_at_sign() {
    let annotated = AnnotatedGLSL::new("uniform sampler2D a @ b@c;\nxx").unwrap();
    let paths = annotated.annotations().texture_paths();
    assert_eq!(paths.len(), 1);
    assert_eq!((paths[0].0.as_str(), paths[0].1.as_str()), ("a", "b@c"));
    assert_eq!(annotated.code(), "uniform sampler2D a ;\nxx");
}

#[test]
fn declaration_without_annotation_binds_nothing() {
    let annotated = AnnotatedGLSL::new("uniform sampler2D a;\nuniform sampler2D b @ c\n").unwrap();
    assert!(annotated.annotations().texture_paths().is_empty());
    assert_eq!(annotated.code(), "uniform sampler2D a;\nuniform sampler2D b @ c\n");
}

#[test]
fn feedback_follows_the_reserved_declaration() {
    assert!(AnnotatedGLSL::new("uniform sampler2D previous;\nxx").unwrap().annotations().feedback());
    assert!(AnnotatedGLSL::new("xx\n  uniform sampler2D previous").unwrap().annotations().feedback());
    assert!(!AnnotatedGLSL::new("uniform sampler2D a;\nuniform sampler2D b @ p.png;\nuniform sampler2D  previous;")
        .unwrap().annotations().feedback());
    assert!(!AnnotatedGLSL::new("// uniform sampler2D previous\nxx").unwrap().annotations().feedback());
}

#[test]
fn directive_faults() {
    let fault = |source: &str| AnnotatedGLSL::new(source).err();
    assert_eq!(fault("#define size 1\nxx"), Some(GLSLError::Count(Directive::Size)));
    assert_eq!(fault("#define size 1 2 3\nxx"), Some(GLSLError::Count(Directive::Size)));
    assert_eq!(fault("#define size 1 x 3\nxx"),
        Some(GLSLError::Number(Directive::Size, NumberFault::InvalidDigit)));
    assert_eq!(fault("#define size 0 10\nxx"),
        Some(GLSLError::Number(Directive::Size, NumberFault::Zero)));
    assert_eq!(fault("#define rate 0\nxx"),
        Some(GLSLError::Number(Directive::Rate, NumberFault::Zero)));
    assert_eq!(fault("#define rate 1 2\nxx"),
        Some(GLSLError::Number(Directive::Rate, NumberFault::InvalidDigit)));
    assert_eq!(fault("#define loop 4294967296\nxx"),
        Some(GLSLError::Number(Directive::Loop, NumberFault::TooLarge)));
    assert_eq!(fault("#define loop +\nxx"),
        Some(GLSLError::Number(Directive::Loop, NumberFault::InvalidDigit)));
    assert_eq!(fault("#define loop -3\nxx"),
        Some(GLSLError::Number(Directive::Loop, NumberFault::InvalidDigit)));
    assert_eq!(fault("#define rate x\n#define size 1\nxx"), Some(GLSLError::Count(Directive::Size)));
    assert_eq!(fault("#define loop x\n#define rate y\nxx"),
        Some(GLSLError::Number(Directive::Rate, NumberFault::InvalidDigit)));
    assert_eq!(AnnotatedGLSL::new("#define loop 4294967295\nxx").unwrap().annotations().range().end(), Some(4294967295));
}

#[test]
fn fault_messages() {
    assert_eq!(GLSLError::Count(Directive::Size).message(),
        "Expected 2 values for the 'size' directive");
    assert_eq!(GLSLError::Number(Directive::Rate, NumberFault::InvalidDigit).message(),
        "Could not parse 'rate' directive: invalid digit found in string");
    assert_eq!(GLSLError::Number(Directive::Loop, NumberFault::Zero).message(),
        "Could not parse 'loop' directive: number would be zero for non-zero type");
    assert_eq!(GLSLError::Number(Directive::Size, NumberFault::TooLarge).message(),
        "Could not parse 'size' directive: number too large to fit in target type");
    assert_eq!(GLSLError::Number(Directive::Size, NumberFault::Empty).message(),
        "Could not parse 'size' directive: cannot parse integer from empty string");
}
