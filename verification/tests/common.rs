use gl_generator::generators::common::{
    gen_enum_item, write_enums, write_fnptr_struct_def, write_header, write_panicking_fns,
    write_struct, write_type_aliases,
};
use gl_generator::generators::types::{TYPES_EGL, TYPES_GL, TYPES_GLX, TYPES_WGL};
use gl_generator::registry::{Alias, Api, Binding, Cmd, Enum, Registry};

fn binding(ident: &str, ty: &str) -> Binding {
    Binding { ident: ident.to_string(), ty: ty.to_string() }
}

fn sample() -> Registry {
    Registry {
        api: Api::Gl,
        enums: vec![
            Enum { ident: "DEPTH_BUFFER_BIT".to_string(), value: "0x00000100".to_string(), ty: Some("GLenum".to_string()) },
            Enum { ident: "TIMEOUT_IGNORED".to_string(), value: "0xFFFFFFFFFFFFFFFF".to_string(), ty: Some("GLuint64".to_string()) },
            Enum { ident: "NONE".to_string(), value: "0".to_string(), ty: None },
        ],
        cmds: vec![
            Cmd { proto: binding("Foo", "()"), params: vec![] },
            Cmd { proto: binding("Bar", "GLint"), params: vec![binding("x", "GLint")] },
            Cmd { proto: binding("DebugMessageCallback", "()"), params: vec![binding("callback", "GLDEBUGPROC"), binding("userParam", "*const __gl_imports::raw::c_void")] },
            Cmd { proto: binding("GetError", "GLenum"), params: vec![] },
            Cmd { proto: binding("Viewport", "()"), params: vec![binding("x", "GLint"), binding("y", "GLint"), binding("width", "GLsizei"), binding("height", "GLsizei")] },
        ],
        aliases: vec![
            Alias { name: "Bar".to_string(), fallbacks: vec!["BarEXT".to_string(), "BarARB".to_string()] },
            Alias { name: "Viewport".to_string(), fallbacks: vec![] },
        ],
    }
}

fn empty() -> Registry {
    Registry {
        api: Api::Egl,
        enums: vec![
        ],
        cmds: vec![
        ],
        aliases: vec![
        ],
    }
}

#[test]
fn header_without_send() {
    let mut out = String::new();
    write_header(&mut out, false);
    assert_eq!(out, r#"
        mod __gl_imports {
            pub use std::mem;
            pub use std::os::raw;
        }
"#);
}

#[test]
fn header_with_send() {
    let mut out = String::new();
    write_header(&mut out, true);
    assert_eq!(out, r#"
        mod __gl_imports {
            pub use std::marker::Send;
            pub use std::mem;
            pub use std::os::raw;
        }
"#);
}

#[test]
fn header_is_appended_to_what_is_there() {
    let mut out = String::from("// before\n");
    write_header(&mut out, false);
    let mut alone = String::new();
    write_header(&mut alone, false);
    assert_eq!(out, format!("// before\n{}", alone));
}

fn type_aliases(api: Api) -> String {
    let mut registry = empty();
    registry.api = api;
    let mut out = String::new();
    write_type_aliases(&registry, &mut out);
    out
}

const TYPES_OPEN: &str = r#"
        pub mod types {
            #![allow(non_camel_case_types, non_snake_case, dead_code, missing_copy_implementations)]
    
"#;

#[test]
fn type_aliases_of_the_opengl_family() {
    let expected = format!("{}{}\n}}\n", TYPES_OPEN, TYPES_GL);
    assert_eq!(type_aliases(Api::Gl), expected);
    assert_eq!(type_aliases(Api::GlCore), expected);
    assert_eq!(type_aliases(Api::Gles1), expected);
    assert_eq!(type_aliases(Api::Gles2), expected);
    assert_eq!(type_aliases(Api::Glsc2), expected);
    assert!(expected.contains("pub type GLenum = super::__gl_imports::raw::c_uint;"));
    assert!(expected.contains("pub type GLDEBUGPROC = Option<extern \"system\" fn("));
}

#[test]
fn type_aliases_of_glx_and_wgl_follow_those_of_opengl() {
    assert_eq!(
        type_aliases(Api::Glx),
        format!("{}{}\n{}\n}}\n", TYPES_OPEN, TYPES_GL, TYPES_GLX)
    );
    assert_eq!(
        type_aliases(Api::Wgl),
        format!("{}{}\n{}\n}}\n", TYPES_OPEN, TYPES_GL, TYPES_WGL)
    );
    assert!(TYPES_GLX.contains("pub type GLXContext = "));
    assert!(TYPES_WGL.contains("pub type HGLRC = "));
}

#[test]
fn type_aliases_of_egl_stand_alone() {
    assert_eq!(type_aliases(Api::Egl), format!("{}{}\n}}\n", TYPES_OPEN, TYPES_EGL));
    assert!(TYPES_EGL.contains("pub type EGLenum = "));
    assert!(!type_aliases(Api::Egl).contains("pub type GLenum"));
}

#[test]
fn enum_item_with_the_type_of_the_source() {
    let registry = sample();
    let mut out = String::new();
    gen_enum_item(&registry.enums[1], &mut out);
    assert_eq!(out, r#"#[allow(dead_code, non_upper_case_globals)] pub const TIMEOUT_IGNORED: GLuint64 = 0xFFFFFFFFFFFFFFFF;
"#);
}

#[test]
fn enum_item_without_a_type_is_an_enum() {
    let registry = sample();
    let mut out = String::new();
    gen_enum_item(&registry.enums[2], &mut out);
    assert_eq!(out, r#"#[allow(dead_code, non_upper_case_globals)] pub const NONE: GLenum = 0;
"#);
}

#[test]
fn enums_in_registry_order() {
    let registry = sample();
    let mut out = String::new();
    write_enums(&registry, &mut out);
    assert_eq!(out, r#"
    pub use consts::*;
    mod consts {
        #![allow(dead_code)]
        use super::types::*;
        
#[allow(dead_code, non_upper_case_globals)] pub const DEPTH_BUFFER_BIT: GLenum = 0x00000100;
#[allow(dead_code, non_upper_case_globals)] pub const TIMEOUT_IGNORED: GLuint64 = 0xFFFFFFFFFFFFFFFF;
#[allow(dead_code, non_upper_case_globals)] pub const NONE: GLenum = 0;
    }
"#);
}

#[test]
fn enums_of_an_empty_registry() {
    let registry = empty();
    let mut out = String::new();
    write_enums(&registry, &mut out);
    assert_eq!(out, r#"
    pub use consts::*;
    mod consts {
        #![allow(dead_code)]
        use super::types::*;
        
    }
"#);
}

#[test]
fn fnptr_struct_def_global() {
    let mut out = String::new();
    write_fnptr_struct_def(&mut out, true);
    assert_eq!(out, r#"
        #[allow(missing_copy_implementations)]
        pub struct FnPtr {
            /// The function pointer that will be used when calling the function.
            f: *const __gl_imports::raw::c_void,
            /// True if the pointer points to a real function, false if points to a `panic!` fn.
            is_loaded: bool,
        }

        impl FnPtr {
            /// Creates a `FnPtr` from a load attempt.
            pub fn new(ptr: *const __gl_imports::raw::c_void) -> FnPtr {
                if ptr.is_null() {
                    FnPtr {
                        f: missing_fn_panic as *const __gl_imports::raw::c_void,
                        is_loaded: false
                    }
                } else {
                    FnPtr { f: ptr, is_loaded: true }
                }
            }
        }
        
"#);
}

#[test]
fn fnptr_struct_def_for_a_structure() {
    let mut out = String::new();
    write_fnptr_struct_def(&mut out, false);
    assert_eq!(out, r#"
        #[allow(dead_code, missing_copy_implementations)]
        #[derive(Clone)]
        pub struct FnPtr {
            /// The function pointer that will be used when calling the function.
            f: *const __gl_imports::raw::c_void,
            /// True if the pointer points to a real function, false if points to a `panic!` fn.
            is_loaded: bool,
        }

        impl FnPtr {
            /// Creates a `FnPtr` from a load attempt.
            fn new(ptr: *const __gl_imports::raw::c_void) -> FnPtr {
                if ptr.is_null() {
                    FnPtr {
                        f: missing_fn_panic as *const __gl_imports::raw::c_void,
                        is_loaded: false
                    }
                } else {
                    FnPtr { f: ptr, is_loaded: true }
                }
            }

            /// Returns `true` if the function has been successfully loaded.
            ///
            /// If it returns `false`, calling the corresponding function will fail.
            #[inline]
            #[allow(dead_code)]
            pub fn is_loaded(&self) -> bool {
                self.is_loaded
            }
        }
        
"#);
}

#[test]
fn panicking_fns_name_the_api() {
    let registry = sample();
    let mut out = String::new();
    write_panicking_fns(&registry, &mut out);
    assert_eq!(out, r#"
        #[inline(never)]
        fn missing_fn_panic() -> ! {
            panic!("gl function was not loaded")
        }
"#);
}

#[test]
fn panicking_fns_of_egl() {
    let registry = empty();
    let mut out = String::new();
    write_panicking_fns(&registry, &mut out);
    assert_eq!(out, r#"
        #[inline(never)]
        fn missing_fn_panic() -> ! {
            panic!("egl function was not loaded")
        }
"#);
}

#[test]
fn struct_as_a_stub() {
    let registry = sample();
    let mut out = String::new();
    write_struct(&registry, &mut out, true);
    assert_eq!(out, r#"
            #[allow(non_camel_case_types, non_snake_case, dead_code)]
            #[derive(Copy, Clone)]
            pub struct Gl;
"#);
}

#[test]
fn struct_with_a_field_for_each_command() {
    let registry = sample();
    let mut out = String::new();
    write_struct(&registry, &mut out, false);
    assert_eq!(out, r#"
        #[allow(non_camel_case_types, non_snake_case, dead_code)]
        #[derive(Clone)]
        pub struct Gl {
pub Foo: FnPtr,
/// Fallbacks: BarEXT, BarARB
pub Bar: FnPtr,
pub DebugMessageCallback: FnPtr,
pub GetError: FnPtr,
/// Fallbacks: 
pub Viewport: FnPtr,
_priv: ()
}
"#);
}

#[test]
fn struct_of_an_empty_registry() {
    let registry = empty();
    let mut out = String::new();
    write_struct(&registry, &mut out, false);
    assert_eq!(out, r#"
        #[allow(non_camel_case_types, non_snake_case, dead_code)]
        #[derive(Clone)]
        pub struct Egl {
_priv: ()
}
"#);
}
