use gl_generator::generators::global_typed_gen::{
    add_return_types, get_conversions, get_initializers, get_return_args, get_rustified,
    get_surface, get_trace_arguments, get_trace_initializer, get_trace_print,
    without_return_types_params, write_fn,
};
use gl_generator::registry::{AliasEntry, Binding, Cmd};
use gl_generator::rules::{is_return_type, ConversionRule, ProjectionRule, RuleSet};

fn cmd(name: &str, ret: &str, params: &[(&str, &str)]) -> Cmd {
    Cmd {
        proto: Binding::new(name, ret),
        params: params.iter().map(|(i, t)| Binding::new(i, t)).collect(),
    }
}

fn numbered(count: usize) -> Vec<Binding> {
    (0..count).map(|i| Binding::new(&format!("p{}", i), "types::GLint")).collect()
}

fn wrapper(c: &Cmd, aliases: &Vec<AliasEntry>, trace: bool) -> String {
    let mut out = String::new();
    write_fn(c, aliases, &RuleSet::standard(), trace, &mut out);
    out
}

#[test]
fn plain_command_keeps_its_parameters() {
    let c = cmd("Clear", "()", &[("mask", "types::GLbitfield")]);
    let expected = "#[inline]\n\
pub fn Clear(mask: types::GLbitfield) -> () {\n\
unsafe {\n\
let func_retv = __gl_imports::mem::transmute::<_, extern \"system\" fn(types::GLbitfield) -> ()>(storage::Clear.f)(mask);\n\
()\n\
}\n\
}\n";
    assert_eq!(wrapper(&c, &vec![], false), expected);
}

#[test]
fn command_without_parameters() {
    let c = cmd("Finish", "()", &[]);
    let expected = "#[inline]\n\
pub fn Finish() -> () {\n\
unsafe {\n\
let func_retv = __gl_imports::mem::transmute::<_, extern \"system\" fn() -> ()>(storage::Finish.f)();\n\
()\n\
}\n\
}\n";
    assert_eq!(wrapper(&c, &vec![], false), expected);
}

#[test]
fn string_parameter_is_converted() {
    let c = cmd(
        "GetUniformLocation",
        "types::GLint",
        &[("program", "types::GLuint"), ("name", "*const types::GLchar")],
    );
    let expected = "#[inline]\n\
pub fn GetUniformLocation(program: types::GLuint, name: &str) -> (types::GLint) {\n\
unsafe {\n                    let name_c_string = std::ffi::CString::new(name.as_bytes()).expect(\"Failed to create CString in GL Call GetUniformLocation\");\n                    let name = name_c_string.as_ptr();\n\
\n\
let func_retv = __gl_imports::mem::transmute::<_, extern \"system\" fn(types::GLuint, *const types::GLchar) -> types::GLint>(storage::GetUniformLocation.f)(program, name);\n\
(func_retv)\n\
}\n\
}\n";
    assert_eq!(wrapper(&c, &vec![], false), expected);
}

#[test]
fn output_pointer_becomes_a_result() {
    let c = cmd("GenTextures", "()", &[("n", "types::GLsizei"), ("textures", "*mut types::GLuint")]);
    let expected = "#[inline]\n\
pub fn GenTextures(n: types::GLsizei) -> (types::GLuint) {\n\
unsafe {\n                    // assuming that this pointer points to only one value\n                    let mut textures_ret = 0;\n                    let textures = &mut textures_ret;\n\
\n\
let func_retv = __gl_imports::mem::transmute::<_, extern \"system\" fn(types::GLsizei, *mut types::GLuint) -> ()>(storage::GenTextures.f)(n, textures);\n\
(textures_ret)\n\
}\n\
}\n";
    assert_eq!(wrapper(&c, &vec![], false), expected);
}

#[test]
fn conversions_come_before_initializers() {
    let c = cmd(
        "GetThing",
        "types::GLboolean",
        &[
            ("length", "*mut types::GLsizei"),
            ("names", "*const *const types::GLchar"),
            ("values", "*const types::GLfloat"),
            ("count", "*mut types::GLint"),
        ],
    );
    let expected = "#[inline]\n\
pub fn GetThing(names: Vec<&str>, values: &[types::GLfloat]) -> (types::GLboolean, types::GLsizei, types::GLint) {\n\
unsafe {\n                    let names_c_string_vec = names.iter().map(|s| std::ffi::CString::new(s.as_bytes()).expect(\"Failed to create CString in GL Call GetThing\")).collect::<Vec<std::ffi::CString>>();\n                    let names_vec = names_c_string_vec.iter().map(|c_string| c_string.as_ptr()).collect::<Vec<*const i8>>();\n                    let names = names_vec.as_ptr();\n                    let values = values.as_ptr();\n\
\n                    let mut length_ret = 0;\n                    let length = &mut length_ret;\n                    // assuming that this pointer points to only one value\n                    let mut count_ret = 0;\n                    let count = &mut count_ret;\n\
\n\
let func_retv = __gl_imports::mem::transmute::<_, extern \"system\" fn(*mut types::GLsizei, *const *const types::GLchar, *const types::GLfloat, *mut types::GLint) -> types::GLboolean>(storage::GetThing.f)(length, names, values, count);\n\
(func_retv, length_ret, count_ret)\n\
}\n\
}\n";
    assert_eq!(wrapper(&c, &vec![], false), expected);
}

#[test]
fn fallback_names_are_listed_above_the_wrapper() {
    let c = cmd("Clear", "()", &[]);
    let aliases = vec![
        AliasEntry { name: "Other".to_string(), fallbacks: vec!["OtherEXT".to_string()] },
        AliasEntry {
            name: "Clear".to_string(),
            fallbacks: vec!["ClearEXT".to_string(), "ClearARB".to_string()],
        },
    ];
    let got = wrapper(&c, &aliases, false);
    assert!(got.starts_with("            /// Fallbacks: ClearEXT, ClearARB\n#[inline]\npub fn Clear() -> () {\n"));
}

#[test]
fn result_arity_counts_own_result_and_projections() {
    let rules = RuleSet::standard();
    let none = cmd("A", "()", &[("x", "types::GLint")]);
    assert_eq!(get_return_args(&none, &rules), "()");
    assert_eq!(add_return_types(&none, "()", &rules), "()");
    let own = cmd("B", "types::GLenum", &[("x", "types::GLint")]);
    assert_eq!(get_return_args(&own, &rules), "(func_retv)");
    assert_eq!(add_return_types(&own, "types::GLenum", &rules), "(types::GLenum)");
    let two = cmd("C", "()", &[("a", "*mut types::GLint"), ("x", "types::GLint"), ("b", "*mut types::GLsizei")]);
    assert_eq!(get_return_args(&two, &rules), "(a_ret, b_ret)");
    assert_eq!(add_return_types(&two, "()", &rules), "(types::GLint, types::GLsizei)");
    let three = cmd("D", "types::GLuint", &[("a", "*mut types::GLuint"), ("b", "*mut types::GLuint")]);
    assert_eq!(get_return_args(&three, &rules), "(func_retv, a_ret, b_ret)");
    assert_eq!(add_return_types(&three, "types::GLuint", &rules), "(types::GLuint, types::GLuint, types::GLuint)");
}

#[test]
fn surface_of_unmatched_command_is_its_native_list() {
    let rules = RuleSet::standard();
    let c = cmd(
        "Viewport",
        "()",
        &[("x", "types::GLint"), ("y", "types::GLint"), ("width", "types::GLsizei"), ("height", "types::GLsizei")],
    );
    let surface = get_surface(&c, &rules);
    assert_eq!(surface, c);
    assert_eq!(get_conversions(&c, &rules), "");
    assert_eq!(get_initializers(&c, &rules), "");
}

#[test]
fn projected_parameters_leave_the_surface() {
    let rules = RuleSet::standard();
    let c = cmd("C", "()", &[("a", "*mut types::GLint"), ("x", "*const types::GLuint"), ("b", "*mut types::GLsizei")]);
    let kept = without_return_types_params(&c, &rules);
    assert_eq!(kept, cmd("C", "()", &[("x", "*const types::GLuint")]));
    let rustified = get_rustified(&c, &rules);
    assert_eq!(
        rustified,
        cmd("C", "()", &[("a", "*mut types::GLint"), ("x", "&[types::GLuint]"), ("b", "*mut types::GLsizei")])
    );
    assert_eq!(get_surface(&c, &rules), cmd("C", "()", &[("x", "&[types::GLuint]")]));
}

#[test]
fn return_types_are_the_projection_signatures() {
    let rules = RuleSet::standard();
    assert!(is_return_type(&rules, "*mut types::GLsizei"));
    assert!(is_return_type(&rules, "*mut types::GLint"));
    assert!(is_return_type(&rules, "*mut types::GLuint"));
    assert!(!is_return_type(&rules, "*const types::GLuint"));
    assert!(!is_return_type(&rules, "*mut types::GLfloat"));
    assert!(!is_return_type(&rules, ""));
}

#[test]
fn rule_statements_name_parameter_and_command() {
    let rules = RuleSet {
        conversions: vec![ConversionRule::new("T", "S", "a {param} b {cmd}\nc {param}{param}")],
        projections: vec![ProjectionRule::new("U", "V", "x {param}\n\ny {cmd}")],
    };
    let c = cmd("Run", "()", &[("p", "T"), ("q", "U"), ("r", "T")]);
    assert_eq!(
        get_conversions(&c, &rules),
        "\n                    a p b Run\n                    c pp\n                    a r b Run\n                    c rr\n"
    );
    assert_eq!(
        get_initializers(&c, &rules),
        "\n                    x q\n                    \n                    y {cmd}\n"
    );
}

#[test]
fn trace_of_fourteen_arguments_formats_each() {
    let surface = numbered(14);
    let expected = (0..14).map(|i| format!("&p{}", i)).collect::<Vec<_>>().join(", ");
    assert_eq!(get_trace_arguments(&surface), expected);
}

#[test]
fn trace_of_fifteen_arguments_is_one_placeholder() {
    assert_eq!(get_trace_arguments(&numbered(15)), "\"<too many arguments to display>\"");
    assert_eq!(get_trace_arguments(&numbered(40)), "\"<too many arguments to display>\"");
}

#[test]
fn trace_replaces_function_values() {
    let surface = vec![
        Binding::new("source", "types::GLenum"),
        Binding::new("errorCallback", "types::GLDEBUGPROC"),
        Binding::new("userParam", "*const raw::c_void"),
    ];
    assert_eq!(
        get_trace_arguments(&surface),
        "&source, \"<callback function as parameter>\", &userParam"
    );
    let single = vec![Binding::new("callback", "types::GLDEBUGPROC")];
    assert_eq!(get_trace_arguments(&single), "\"<callback function as parameter>\"");
    let mut many = numbered(14);
    many.push(Binding::new("errorCallback", "types::GLDEBUGPROC"));
    assert_eq!(get_trace_arguments(&many), "\"<too many arguments to display>\"");
    let mut most = numbered(13);
    most.push(Binding::new("CALLBACKS", "types::GLDEBUGPROC"));
    assert!(get_trace_arguments(&most).ends_with("&p12, \"<callback function as parameter>\""));
    let near = vec![Binding::new("callbac", "T"), Binding::new("allback", "T"), Binding::new("call_back", "T")];
    assert_eq!(get_trace_arguments(&near), "&callbac, &allback, &call_back");
}

#[test]
fn trace_of_no_arguments_is_empty() {
    assert_eq!(get_trace_arguments(&vec![]), "");
}

#[test]
fn trace_initializer_brackets_a_single_argument() {
    assert_eq!(get_trace_initializer("Clear", &numbered(1), false), "");
    assert_eq!(
        get_trace_initializer("Clear", &numbered(1), true),
        "\nlet debug_string = format!(\"glClear({:?})\", (&p0));"
    );
    assert_eq!(
        get_trace_initializer("Clear", &numbered(2), true),
        "\nlet debug_string = format!(\"glClear{:?}\", (&p0, &p1));"
    );
    assert_eq!(
        get_trace_initializer("Finish", &numbered(0), true),
        "\nlet debug_string = format!(\"glFinish{:?}\", ());"
    );
}

#[test]
fn trace_print_appends_results_of_returning_commands() {
    let rules = RuleSet::standard();
    let unit = cmd("A", "()", &[("a", "*mut types::GLint")]);
    assert_eq!(get_trace_print(&unit, &rules, false), "");
    assert_eq!(get_trace_print(&unit, &rules, true), "\nprintln!(\"{}\", debug_string);");
    let own = cmd("B", "types::GLenum", &[("a", "*mut types::GLint")]);
    assert_eq!(
        get_trace_print(&own, &rules, true),
        "\nprintln!(\"{} -> {:?}\", debug_string, (func_retv, a_ret));"
    );
}

#[test]
fn traced_wrapper() {
    let c = cmd("GenTextures", "()", &[("n", "types::GLsizei"), ("textures", "*mut types::GLuint")]);
    let expected = "#[inline]\n\
pub fn GenTextures(n: types::GLsizei) -> (types::GLuint) {\n\
unsafe {\n\
let debug_string = format!(\"glGenTextures({:?})\", (&n));\n                    // assuming that this pointer points to only one value\n                    let mut textures_ret = 0;\n                    let textures = &mut textures_ret;\n\
\n\
let func_retv = __gl_imports::mem::transmute::<_, extern \"system\" fn(types::GLsizei, *mut types::GLuint) -> ()>(storage::GenTextures.f)(n, textures);\n\
println!(\"{}\", debug_string);\n\
(textures_ret)\n\
}\n\
}\n";
    assert_eq!(wrapper(&c, &vec![], true), expected);
}

#[test]
fn trace_formats_the_arguments_before_they_are_converted() {
    let c = cmd(
        "GetUniformLocation",
        "types::GLint",
        &[("program", "types::GLuint"), ("name", "*const types::GLchar")],
    );
    let expected = "#[inline]\n\
pub fn GetUniformLocation(program: types::GLuint, name: &str) -> (types::GLint) {\n\
unsafe {\n\
let debug_string = format!(\"glGetUniformLocation{:?}\", (&program, &name));\n                    let name_c_string = std::ffi::CString::new(name.as_bytes()).expect(\"Failed to create CString in GL Call GetUniformLocation\");\n                    let name = name_c_string.as_ptr();\n\
\n\
let func_retv = __gl_imports::mem::transmute::<_, extern \"system\" fn(types::GLuint, *const types::GLchar) -> types::GLint>(storage::GetUniformLocation.f)(program, name);\n\
println!(\"{} -> {:?}\", debug_string, (func_retv));\n\
(func_retv)\n\
}\n\
}\n";
    assert_eq!(wrapper(&c, &vec![], true), expected);
}
