use rxx::signature::{call_args, decl_args, replace_cls};
use rxx::{genc_fn, genc_shared_ptr, genc_unique_ptr, genc_vector, genc_weak_ptr, FnSig, ReturnType};

fn count(hay: &str, needle: &str) -> usize {
    hay.matches(needle).count()
}

#[test]
fn test_fn() {
    let s = genc_fn(
        "MapMut_Matrix3d_new",
        FnSig {
            fn_name: "MapMut_fixed_new<Matrix3d, double>",
            ret_type: ReturnType::Object("Eigen::Map<Matrix3d>"),
            args: &[("double *", "data")],
            ..FnSig::default()
        },
    );

    assert_eq!(
        s,
        r#"
extern "C" void MapMut_Matrix3d_new(double * data, Eigen::Map<Matrix3d> *__ret) noexcept {
    Eigen::Map<Matrix3d> (*__func)(double * data) = MapMut_fixed_new<Matrix3d, double>;
    new (__ret) (Eigen::Map<Matrix3d>)(__func(data));
}
"#
        .trim_start()
    );

    let s = genc_fn(
        "rxx_Matrix3d_print",
        FnSig {
            fn_name: "Matrix3d_print",
            args: &[("Matrix3d const &", "self")],
            ..FnSig::default()
        },
    );

    assert_eq!(
        s,
        r#"
extern "C" void rxx_Matrix3d_print(Matrix3d const & self) noexcept {
    void (*__func)(Matrix3d const & self) = Matrix3d_print;
    __func(self);
}
"#
        .trim_start()
    );
}

const UNIQUE_STRING: &str = r#"
extern "C" void rxx_unique_string_delete(std::unique_ptr<std::string> &self) noexcept {
    rxx::destroy(&self);
}
"#;

const SHARED_STRING: &str = r#"
extern "C" void rxx_shared_string_delete(std::shared_ptr<std::string> &self) noexcept {
    rxx::destroy(&self);
}

extern "C" void rxx_shared_string_clone(const std::shared_ptr<std::string> &self, std::shared_ptr<std::string> *out) noexcept {
    rxx::shared_ptr_clone(self, out);
}
"#;

const WEAK_STRING: &str = r#"
extern "C" void rxx_weak_string_delete(std::weak_ptr<std::string> &self) noexcept {
    rxx::destroy(&self);
}

extern "C" void rxx_weak_string_clone(const std::weak_ptr<std::string> &self, std::weak_ptr<std::string> *out) noexcept {
    rxx::weak_ptr_clone(self, out);
}

extern "C" void rxx_weak_string_upgrade(const std::weak_ptr<std::string> &self, std::shared_ptr<std::string> *out) {
    rxx::weak_ptr_upgrade(self, out);
}

extern "C"  void rxx_weak_string_downgrade(const std::shared_ptr<std::string> &self, std::weak_ptr<std::string> *out) {
    rxx::weak_ptr_downgrade(self, out);
}
"#;

const VECTOR_STRING: &str = r#"
extern "C" void rxx_vector_string_delete(const std::vector<std::string> &self) {
    rxx::destroy(&self);
}

extern "C" std::size_t rxx_vector_string_size(const std::vector<std::string> &self) {
    return rxx::vector_size(self);
}

extern "C" const std::string& rxx_vector_string_get(const std::vector<std::string> &self, size_t pos) {
    return rxx::vector_get(self, pos);
}

extern "C" std::string& rxx_vector_string_get_mut(std::vector<std::string> &self, size_t pos) {
    return rxx::vector_get_mut(self, pos);
}

extern "C" void rxx_vector_string_push_back(std::vector<std::string> &self, std::string &val) {
    return rxx::vector_push_back(self, val);
}

extern "C" void rxx_vector_string_pop_back(std::vector<std::string> &self, std::string *out) {
    rxx::vector_pop_back(self, out);
}
"#;

#[test]
fn test_std() {
    let s = genc_unique_ptr("rxx_unique_string", "std::unique_ptr<std::string>");
    assert_eq!(s, UNIQUE_STRING.trim_start());

    let s = genc_shared_ptr("rxx_shared_string", "std::shared_ptr<std::string>");
    assert_eq!(s, SHARED_STRING.trim_start());

    let s = genc_weak_ptr(
        "rxx_weak_string",
        "std::weak_ptr<std::string>",
        "std::shared_ptr<std::string>",
    );
    assert_eq!(s, WEAK_STRING.trim_start());

    let s = genc_vector("rxx_vector_string", "std::vector<std::string>", "std::string");
    assert_eq!(s, VECTOR_STRING.trim_start());
}

#[test]
fn test_templates() {
    let s = genc_unique_ptr("rxx_unique_string", "std::unique_ptr<std::string>");
    assert_eq!(s, UNIQUE_STRING.trim_start());

    let s = genc_shared_ptr("rxx_shared_string", "std::shared_ptr<std::string>");
    assert_eq!(s, SHARED_STRING.trim_start());

    let s = genc_weak_ptr("rxx_weak_string", "std::weak_ptr<std::string>", "std::shared_ptr<std::string>");
    assert_eq!(s, WEAK_STRING.trim_start());

    let s = genc_vector("rxx_vector_string", "std::vector<std::string>", "std::string");
    assert_eq!(s, VECTOR_STRING.trim_start());
}

#[test]
fn free_void_has_one_function_reference_and_no_out_pointer() {
    let args = [("std::vector<int64_t>&", "val"), ("int", "n")];
    let s = genc_fn(
        "rxx_dummy_cpp_add_vector_i64",
        FnSig { fn_name: "dummy_cpp_add_vector_i64", args: &args, ..FnSig::default() },
    );
    assert_eq!(
        s,
        "extern \"C\" void rxx_dummy_cpp_add_vector_i64(std::vector<int64_t>& val, int n) noexcept {\n    void (*__func)(std::vector<int64_t>& val, int n) = dummy_cpp_add_vector_i64;\n    __func(val, n);\n}\n"
    );
    assert_eq!(count(&s, "(*__func)"), 1);
    assert_eq!(count(&s, "__func(val, n);"), 1);
    assert_eq!(count(&s, "__ret"), 0);
}

#[test]
fn free_atomic_returns_by_value() {
    let args = [("std::vector<int64_t>&", "val"), ("int", "n")];
    let s = genc_fn(
        "rxx_dummy_cpp_addret_vector_i64",
        FnSig {
            fn_name: "dummy_cpp_addret_vector_i64",
            ret_type: ReturnType::Atomic("int64_t"),
            args: &args,
            ..FnSig::default()
        },
    );
    assert_eq!(
        s,
        "extern \"C\" int64_t rxx_dummy_cpp_addret_vector_i64(std::vector<int64_t>& val, int n) noexcept {\n    int64_t (*__func)(std::vector<int64_t>& val, int n) = dummy_cpp_addret_vector_i64;\n    return __func(val, n);\n}\n"
    );
}

#[test]
fn free_object_without_arguments_has_only_the_out_pointer() {
    let s = genc_fn(
        "mk",
        FnSig { fn_name: "make_thing", ret_type: ReturnType::Object("Thing"), ..FnSig::default() },
    );
    assert_eq!(
        s,
        "extern \"C\" void mk(Thing *__ret) noexcept {\n    Thing (*__func)() = make_thing;\n    new (__ret) (Thing)(__func());\n}\n"
    );
}

#[test]
fn const_member_atomic_with_class_placeholder() {
    let args = [("size_t", "idx")];
    let s = genc_fn(
        "rxx_Dummy_get",
        FnSig {
            cls: Some("Dummy"),
            fn_name: "&$C::get",
            ret_type: ReturnType::Atomic("int64_t"),
            args: &args,
            ..FnSig::default()
        },
    );
    assert_eq!(
        s,
        "extern \"C\" int64_t rxx_Dummy_get(Dummy const &self, size_t idx) noexcept {\n    int64_t (Dummy::*__func)(size_t idx) const = &Dummy::get;\n    return (self.*__func)(idx);\n}\n"
    );
}

#[test]
fn mutable_member_object_without_arguments_is_comma_correct() {
    let s = genc_fn(
        "rxx_Foo_make",
        FnSig {
            cls: Some("Foo"),
            is_mut: true,
            fn_name: "&$C::make",
            ret_type: ReturnType::Object("std::string"),
            args: &[],
        },
    );
    assert_eq!(
        s,
        "extern \"C\" void rxx_Foo_make(Foo &self, std::string *__ret) noexcept {\n    std::string (Foo::*__func)() = &Foo::make;\n    new (__ret) std::string((self.*__func)());\n}\n"
    );
    assert_eq!(count(&s, "*__ret"), 1);
}

#[test]
fn const_member_object_with_arguments_ends_with_out_pointer() {
    let args = [("int", "a")];
    let s = genc_fn(
        "rxx_Foo_at",
        FnSig {
            cls: Some("Foo"),
            fn_name: "&$C::at",
            ret_type: ReturnType::Object("$C"),
            args: &args,
            ..FnSig::default()
        },
    );
    assert_eq!(
        s,
        "extern \"C\" void rxx_Foo_at(Foo const &self, int a, Foo *__ret) noexcept {\n    Foo (Foo::*__func)(int a) const = &Foo::at;\n    new (__ret) Foo((self.*__func)(a));\n}\n"
    );
}

#[test]
fn mutable_member_void_with_two_arguments() {
    let args = [("int64_t", "a"), ("$C const&", "b")];
    let s = genc_fn(
        "rxx_Dummy_add",
        FnSig { cls: Some("Dummy"), is_mut: true, fn_name: "&$C::add", args: &args, ..FnSig::default() },
    );
    assert_eq!(
        s,
        "extern \"C\" void rxx_Dummy_add(Dummy &self, int64_t a, Dummy const& b) noexcept {\n    void (Dummy::*__func)(int64_t a, Dummy const& b) = &Dummy::add;\n    (self.*__func)(a, b);\n}\n"
    );
}

#[test]
fn const_member_void_and_mutable_member_atomic() {
    let s = genc_fn(
        "rxx_Dummy_show",
        FnSig { cls: Some("Dummy"), fn_name: "&$C::show", ..FnSig::default() },
    );
    assert_eq!(
        s,
        "extern \"C\" void rxx_Dummy_show(Dummy const &self) noexcept {\n    void (Dummy::*__func)() const = &Dummy::show;\n    (self.*__func)();\n}\n"
    );
    let args = [("size_t", "idx")];
    let s = genc_fn(
        "rxx_Dummy_get_mut",
        FnSig {
            cls: Some("Dummy"),
            is_mut: true,
            fn_name: "&$C::get_mut",
            ret_type: ReturnType::Atomic("int64_t&"),
            args: &args,
        },
    );
    assert_eq!(
        s,
        "extern \"C\" int64_t& rxx_Dummy_get_mut(Dummy &self, size_t idx) noexcept {\n    int64_t& (Dummy::*__func)(size_t idx) = &Dummy::get_mut;\n    return (self.*__func)(idx);\n}\n"
    );
}

#[test]
fn link_name_is_emitted_as_given() {
    let s = genc_unique_ptr("a=b", "T");
    assert_eq!(
        s,
        "extern \"C\" void a=b_delete(T &self) noexcept {\n    rxx::destroy(&self);\n}\n"
    );
    let s = genc_fn("x<y>", FnSig { fn_name: "f", ..FnSig::default() });
    assert_eq!(s, "extern \"C\" void x<y>() noexcept {\n    void (*__func)() = f;\n    __func();\n}\n");
}

#[test]
fn resource_kinds_emit_one_symbol_per_operation() {
    let owning = genc_unique_ptr("p", "T");
    let shared = genc_shared_ptr("p", "T");
    let weak = genc_weak_ptr("p", "W", "S");
    let array = genc_vector("p", "V", "E");
    assert_eq!(count(&owning, "extern \"C\""), 1);
    assert_eq!(count(&shared, "extern \"C\""), 2);
    assert_eq!(count(&weak, "extern \"C\""), 4);
    assert_eq!(count(&array, "extern \"C\""), 6);
    for sym in ["p_delete(", "p_clone("] {
        assert_eq!(count(&shared, sym), 1);
    }
    for sym in ["p_delete(", "p_clone(", "p_upgrade(", "p_downgrade("] {
        assert_eq!(count(&weak, sym), 1);
    }
    for sym in ["p_delete(", "p_size(", "p_get(", "p_get_mut(", "p_push_back(", "p_pop_back("] {
        assert_eq!(count(&array, sym), 1);
    }
}

#[test]
fn scenario_vec_i64_bindings() {
    let s = genc_vector("vec_i64", "std::vector<int64_t>", "int64_t");
    assert_eq!(count(&s, "extern \"C\""), 6);
    assert!(s.contains("extern \"C\" const int64_t& vec_i64_get(const std::vector<int64_t> &self, size_t pos) {"));
    assert!(s.contains("extern \"C\" void vec_i64_pop_back(std::vector<int64_t> &self, int64_t *out) {"));
}

#[test]
fn scenario_shared_i64_bindings() {
    let s = genc_shared_ptr("shared_i64", "std::shared_ptr<int64_t>");
    assert_eq!(count(&s, "extern \"C\""), 2);
    assert!(s.contains("shared_i64_delete(std::shared_ptr<int64_t> &self)"));
    assert!(s.contains("shared_i64_clone(const std::shared_ptr<int64_t> &self, std::shared_ptr<int64_t> *out)"));
}

#[test]
fn argument_lists_and_class_placeholder() {
    let args = [("int", "a"), ("double *", "b")];
    assert_eq!(decl_args(&args), "int a, double * b");
    assert_eq!(call_args(&args), "a, b");
    assert_eq!(decl_args(&[]), "");
    assert_eq!(call_args(&[]), "");
    assert_eq!(replace_cls("&$C::f<$C>", "Foo"), "&Foo::f<Foo>");
    assert_eq!(replace_cls("$$CC$", "X"), "$XC$");
}

#[test]
fn return_type_categories() {
    assert!(ReturnType::Void.is_none());
    assert!(!ReturnType::Void.is_object());
    assert!(ReturnType::Object("T").is_object());
    assert!(!ReturnType::Object("T").is_atomic());
    assert!(ReturnType::Atomic("int").is_atomic());
    assert!(!ReturnType::Atomic("int").is_none());
    assert!(ReturnType::default().is_none());
}
