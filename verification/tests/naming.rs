use gl_generator::generators::{
    gen_fallback_symbols, gen_parameter_list, gen_parameters, gen_return_suffix, gen_signature,
    gen_struct_name, gen_symbol_list, gen_symbol_name, gen_symbols,
};
use gl_generator::registry::{Alias, Api, Binding, Cmd, Registry};
use gl_generator::text::join;

fn binding(ident: &str, ty: &str) -> Binding {
    Binding { ident: ident.to_string(), ty: ty.to_string() }
}

fn viewport() -> Cmd {
    Cmd {
        proto: binding("Viewport", "()"),
        params: vec![
            binding("x", "GLint"),
            binding("y", "GLint"),
            binding("width", "GLsizei"),
            binding("height", "GLsizei"),
        ],
    }
}

fn strings(items: &[&str]) -> Vec<String> {
    items.iter().map(|s| s.to_string()).collect()
}

#[test]
fn symbol_names_carry_the_prefix_of_the_api() {
    assert_eq!(gen_symbol_name(Api::Gl, "Clear"), "glClear");
    assert_eq!(gen_symbol_name(Api::GlCore, "Clear"), "glClear");
    assert_eq!(gen_symbol_name(Api::Gles1, "Clear"), "glClear");
    assert_eq!(gen_symbol_name(Api::Gles2, "Clear"), "glClear");
    assert_eq!(gen_symbol_name(Api::Glsc2, "Clear"), "glClear");
    assert_eq!(gen_symbol_name(Api::Glx, "SwapBuffers"), "glXSwapBuffers");
    assert_eq!(gen_symbol_name(Api::Wgl, "MakeCurrent"), "wglMakeCurrent");
    assert_eq!(gen_symbol_name(Api::Egl, "Initialize"), "eglInitialize");
    assert_eq!(gen_symbol_name(Api::Gl, ""), "gl");
}

#[test]
fn struct_names() {
    assert_eq!(gen_struct_name(Api::Gl), "Gl");
    assert_eq!(gen_struct_name(Api::Glx), "Glx");
    assert_eq!(gen_struct_name(Api::Wgl), "Wgl");
    assert_eq!(gen_struct_name(Api::Egl), "Egl");
    assert_eq!(gen_struct_name(Api::GlCore), "GlCore");
    assert_eq!(gen_struct_name(Api::Gles1), "Gles1");
    assert_eq!(gen_struct_name(Api::Gles2), "Gles2");
    assert_eq!(gen_struct_name(Api::Glsc2), "Glsc2");
}

#[test]
fn api_names() {
    assert_eq!(Api::Gl.name(), "gl");
    assert_eq!(Api::Glx.name(), "glx");
    assert_eq!(Api::Wgl.name(), "wgl");
    assert_eq!(Api::Egl.name(), "egl");
    assert_eq!(Api::GlCore.name(), "glcore");
    assert_eq!(Api::Gles1.name(), "gles1");
    assert_eq!(Api::Gles2.name(), "gles2");
    assert_eq!(Api::Glsc2.name(), "glsc2");
}

#[test]
fn parameters_with_names_and_types() {
    assert_eq!(
        gen_parameters(&viewport(), true, true),
        strings(&["x: GLint", "y: GLint", "width: GLsizei", "height: GLsizei"])
    );
}

#[test]
fn parameters_with_types_alone() {
    assert_eq!(
        gen_parameters(&viewport(), false, true),
        strings(&["GLint", "GLint", "GLsizei", "GLsizei"])
    );
}

#[test]
fn parameters_with_names_alone() {
    assert_eq!(gen_parameters(&viewport(), true, false), strings(&["x", "y", "width", "height"]));
}

#[test]
fn parameters_with_neither_are_empty_texts() {
    assert_eq!(gen_parameters(&viewport(), false, false), strings(&["", "", "", ""]));
}

#[test]
fn parameters_of_a_command_without_any() {
    let cmd = Cmd { proto: binding("Finish", "()"), params: vec![] };
    assert_eq!(gen_parameters(&cmd, true, true), Vec::<String>::new());
    assert_eq!(gen_parameter_list(&cmd, true, true), "");
}

/// The member of a declaration is the name as a call passes it, a colon, and
/// the type as a function pointer type lists it.
#[test]
fn the_three_parameter_lists_agree() {
    let cmd = viewport();
    let both = gen_parameters(&cmd, true, true);
    let names = gen_parameters(&cmd, true, false);
    let types = gen_parameters(&cmd, false, true);
    assert_eq!(both.len(), 4);
    assert_eq!(names.len(), 4);
    assert_eq!(types.len(), 4);
    for i in 0..4 {
        assert_eq!(both[i], format!("{}: {}", names[i], types[i]));
    }
}

#[test]
fn parameter_lists_are_separated_by_commas() {
    let cmd = viewport();
    assert_eq!(
        gen_parameter_list(&cmd, true, true),
        "x: GLint, y: GLint, width: GLsizei, height: GLsizei"
    );
    assert_eq!(gen_parameter_list(&cmd, false, true), "GLint, GLint, GLsizei, GLsizei");
    assert_eq!(gen_parameter_list(&cmd, true, false), "x, y, width, height");
}

#[test]
fn return_suffix_is_empty_for_no_value_only() {
    assert_eq!(gen_return_suffix(&"()".to_string()), "");
    assert_eq!(gen_return_suffix(&"GLint".to_string()), "-> GLint");
    assert_eq!(gen_return_suffix(&"*const GLubyte".to_string()), "-> *const GLubyte");
    assert_eq!(gen_return_suffix(&"( )".to_string()), "-> ( )");
    assert_eq!(gen_return_suffix(&"".to_string()), "-> ");
}

#[test]
fn signature_of_a_command() {
    let cmd = Cmd {
        proto: binding("GetString", "*const GLubyte"),
        params: vec![binding("name", "GLenum")],
    };
    let sig = gen_signature(&cmd);
    assert_eq!(sig.params, "name: GLenum");
    assert_eq!(sig.types, "GLenum");
    assert_eq!(sig.idents, "name");
    assert_eq!(sig.ret, "-> *const GLubyte");
    let sig = gen_signature(&viewport());
    assert_eq!(sig.ret, "");
}

#[test]
fn symbols_of_fallbacks() {
    let names = strings(&["BarEXT", "BarARB"]);
    assert_eq!(gen_symbols(Api::Gl, &names), strings(&["glBarEXT", "glBarARB"]));
    assert_eq!(gen_symbol_list(Api::Gl, &names), "\"glBarEXT\", \"glBarARB\"");
    assert_eq!(gen_symbol_list(Api::Wgl, &strings(&["SwapIntervalEXT"])), "\"wglSwapIntervalEXT\"");
    assert_eq!(gen_symbol_list(Api::Gl, &Vec::new()), "");
}

#[test]
fn fallback_symbols_of_a_command() {
    let registry = Registry {
        api: Api::Gl,
        enums: vec![],
        cmds: vec![],
        aliases: vec![
            Alias { name: "Bar".to_string(), fallbacks: strings(&["BarEXT", "BarARB"]) },
            Alias { name: "Baz".to_string(), fallbacks: vec![] },
        ],
    };
    assert_eq!(gen_fallback_symbols(&registry, &"Bar".to_string()), "\"glBarEXT\", \"glBarARB\"");
    assert_eq!(gen_fallback_symbols(&registry, &"Baz".to_string()), "");
    assert_eq!(gen_fallback_symbols(&registry, &"Foo".to_string()), "");
}

#[test]
fn join_puts_the_separator_between_neighbours() {
    assert_eq!(join(&Vec::new(), ", "), "");
    assert_eq!(join(&strings(&["a"]), ", "), "a");
    assert_eq!(join(&strings(&["a", "b"]), ", "), "a, b");
    assert_eq!(join(&strings(&["a", "", "c"]), "-"), "a--c");
    assert_eq!(join(&strings(&["", ""]), ", "), ", ");
    assert_eq!(join(&strings(&["a", "b", "c"]), ""), "abc");
}
