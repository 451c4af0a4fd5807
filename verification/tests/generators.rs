use gl_generator::generators::{gen_enum_item, gen_parameters, gen_struct_name, gen_symbol_name};
use gl_generator::registry::{Api, Binding, Cmd, Enum};

fn sample_cmd() -> Cmd {
    Cmd {
        proto: Binding::new("GetUniformLocation", "types::GLint"),
        params: vec![
            Binding::new("program", "types::GLuint"),
            Binding::new("name", "*const types::GLchar"),
        ],
    }
}

#[test]
fn parameters_with_names_and_types() {
    let got = gen_parameters(&sample_cmd(), true, true);
    assert_eq!(got, vec!["program: types::GLuint".to_string(), "name: *const types::GLchar".to_string()]);
}

#[test]
fn parameters_with_types_only() {
    let got = gen_parameters(&sample_cmd(), false, true);
    assert_eq!(got, vec!["types::GLuint".to_string(), "*const types::GLchar".to_string()]);
}

#[test]
fn parameters_with_names_only() {
    let got = gen_parameters(&sample_cmd(), true, false);
    assert_eq!(got, vec!["program".to_string(), "name".to_string()]);
}

#[test]
fn enum_item_plain() {
    let e = Enum { ident: "DEPTH_TEST".to_string(), value: "0x0B71".to_string(), cast: false, ty: "GLenum".to_string() };
    let mut out = String::new();
    gen_enum_item(&e, "types::", &mut out);
    assert_eq!(out, "#[allow(dead_code, non_upper_case_globals)] pub const DEPTH_TEST: types::GLenum = 0x0B71;\n");
}

#[test]
fn enum_item_with_cast() {
    let e = Enum { ident: "TRUE".to_string(), value: "1".to_string(), cast: true, ty: "GLboolean".to_string() };
    let mut out = String::from("x");
    gen_enum_item(&e, "types::", &mut out);
    assert_eq!(out, "x#[allow(dead_code, non_upper_case_globals)] pub const TRUE: types::GLboolean = 1 as types::GLboolean;\n");
}

#[test]
fn enum_item_of_text_has_no_prefix() {
    let e = Enum { ident: "NAME".to_string(), value: "\"n\"".to_string(), cast: false, ty: "&'static str".to_string() };
    let mut out = String::new();
    gen_enum_item(&e, "types::", &mut out);
    assert_eq!(out, "#[allow(dead_code, non_upper_case_globals)] pub const NAME: &'static str = \"n\";\n");
}

#[test]
fn symbol_names_by_family() {
    assert_eq!(gen_symbol_name(Api::Gl, "Clear"), "glClear");
    assert_eq!(gen_symbol_name(Api::GlCore, "Clear"), "glClear");
    assert_eq!(gen_symbol_name(Api::Gles1, "Clear"), "glClear");
    assert_eq!(gen_symbol_name(Api::Gles2, "Clear"), "glClear");
    assert_eq!(gen_symbol_name(Api::Glsc2, "Clear"), "glClear");
    assert_eq!(gen_symbol_name(Api::Glx, "SwapBuffers"), "glXSwapBuffers");
    assert_eq!(gen_symbol_name(Api::Wgl, "CreateContext"), "wglCreateContext");
    assert_eq!(gen_symbol_name(Api::Egl, "Initialize"), "eglInitialize");
}

#[test]
fn struct_names_by_family() {
    assert_eq!(gen_struct_name(Api::Gl), "Gl");
    assert_eq!(gen_struct_name(Api::Glx), "Glx");
    assert_eq!(gen_struct_name(Api::Wgl), "Wgl");
    assert_eq!(gen_struct_name(Api::Egl), "Egl");
    assert_eq!(gen_struct_name(Api::GlCore), "GlCore");
    assert_eq!(gen_struct_name(Api::Gles1), "Gles1");
    assert_eq!(gen_struct_name(Api::Gles2), "Gles2");
    assert_eq!(gen_struct_name(Api::Glsc2), "Glsc2");
}
