use vstd::prelude::*;
use crate::stdlib::io::IoNative;
use crate::stdlib::lang::LangNative;
use crate::stdlib::math::MathNative;
use crate::stdlib::regex::RegexNative;
use crate::stdlib::util::UtilNative;
use crate::stdlib::host::HostNative;
use crate::runtime::value::Value;

verus! {

/// Which built-in implementation backs a native method.
#[derive(Clone, Copy, Debug, PartialEq, Eq, Structural)]
pub enum Native {
    Lang(LangNative),
    Util(UtilNative),
    Io(IoNative),
    Math(MathNative),
    Regex(RegexNative),
    /// Implemented by the embedding application: I/O, floating point and
    /// operating-system threads.
    Host(HostNative),
}

/// A method known to the method area, with its native implementation if it has one.
pub struct Method {
    pub class_name: String,
    pub name: String,
    pub descriptor: String,
    pub is_static: bool,
    pub native: Option<Native>,
}

pub struct MethodView {
    pub class_name: Seq<char>,
    pub name: Seq<char>,
    pub descriptor: Seq<char>,
    pub is_static: bool,
    pub native: Option<Native>,
}

pub open spec fn method_view(
    class_name: Seq<char>,
    name: Seq<char>,
    descriptor: Seq<char>,
    is_static: bool,
    native: Option<Native>,
) -> MethodView {
    MethodView { class_name, name, descriptor, is_static, native }
}

impl View for Method {
    type V = MethodView;

    open spec fn view(&self) -> MethodView {
        method_view(self.class_name@, self.name@, self.descriptor@, self.is_static, self.native)
    }
}

impl Method {
    pub fn new_native(
        class_name: &str,
        name: &str,
        descriptor: &str,
        is_static: bool,
        native: Option<Native>,
    ) -> (m: Method)
        ensures
            m@ == method_view(class_name@, name@, descriptor@, is_static, native),
    {
        Method {
            class_name: String::from_str(class_name),
            name: String::from_str(name),
            descriptor: String::from_str(descriptor),
            is_static,
            native,
        }
    }
}

/// The registry of methods, in registration order.
pub struct MethodArea {
    pub methods: Vec<(String, Method)>,
    pub static_fields: Vec<(String, String, String, Value)>,
}

/// The static-field table as (class, field, descriptor, value) entries in order of setting.
pub open spec fn static_view(a: &MethodArea) -> Seq<(Seq<char>, Seq<char>, Seq<char>, Value)> {
    a.static_fields@.map_values(|e: (String, String, String, Value)| (e.0@, e.1@, e.2@, e.3))
}

impl View for MethodArea {
    type V = Seq<(Seq<char>, MethodView)>;

    open spec fn view(&self) -> Seq<(Seq<char>, MethodView)> {
        self.methods@.map_values(|e: (String, Method)| (e.0@, e.1@))
    }
}

impl MethodArea {
    pub fn new() -> (a: MethodArea)
        ensures
            a@.len() == 0,
    {
        MethodArea { methods: Vec::new(), static_fields: Vec::new() }
    }

    /// Records the value of a static field.
    pub fn set_static_field(&mut self, class_name: &str, name: &str, descriptor: &str, value: Value)
        ensures
            static_view(final(self)) == static_view(old(self)).push(
                (class_name@, name@, descriptor@, value),
            ),
            final(self)@ == old(self)@,
    {
        self.static_fields.push(
            (String::from_str(class_name), String::from_str(name), String::from_str(descriptor), value),
        );
        assert(static_view(self) =~= static_view(old(self)).push(
            (class_name@, name@, descriptor@, value),
        ));
        assert(self@ =~= old(self)@);
    }

    /// Records `method` as belonging to `class_name`.
    pub fn add_native_method(&mut self, class_name: &str, method: Method)
        ensures
            final(self)@ == old(self)@.push((class_name@, method@)),
            static_view(final(self)) == static_view(old(self)),
    {
        self.methods.push((String::from_str(class_name), method));
        assert(self@ =~= old(self)@.push((class_name@, method@)));
        assert(static_view(self) =~= static_view(old(self)));
    }

    pub open spec fn has_class_spec(&self, name: Seq<char>) -> bool {
        exists|i: int| 0 <= i < self@.len() && #[trigger] self@[i].0 == name
    }

    /// Whether some method is registered for the class named `class_name`.
    pub fn has_class(&self, class_name: &Vec<char>) -> (r: bool)
        ensures
            r == self.has_class_spec(class_name@),
    {
        let mut i: usize = 0;
        while i < self.methods.len()
            invariant
                i <= self@.len(),
                self@.len() == self.methods@.len(),
                forall|j: int| 0 <= j < i ==> #[trigger] self@[j].0 != class_name@,
            decreases self.methods@.len() - i,
        {
            let c = crate::text::chars_of(self.methods[i].0.as_str());
            if crate::natives::common::chars_eq(&c, class_name) {
                assert(self@[i as int].0 == class_name@);
                return true;
            }
            i += 1;
        }
        false
    }

    /// The most recently registered method with this class, name and descriptor.
    pub fn get_method(&self, class_name: &str, name: &str, descriptor: &str) -> (r: Option<&Method>)
        ensures
            match r {
                Some(m) => exists|i: int|
                    0 <= i < self@.len() && #[trigger] self@[i] == (class_name@, m@) && m@.name
                        == name@ && m@.descriptor == descriptor@ && (forall|j: int|
                        i < j < self@.len() ==> !(#[trigger] self@[j].0 == class_name@
                            && self@[j].1.name == name@ && self@[j].1.descriptor == descriptor@)),
                None => forall|j: int|
                    0 <= j < self@.len() ==> !(#[trigger] self@[j].0 == class_name@
                        && self@[j].1.name == name@ && self@[j].1.descriptor == descriptor@),
            },
    {
        let c = String::from_str(class_name);
        let n = String::from_str(name);
        let d = String::from_str(descriptor);
        let mut i = self.methods.len();
        while i > 0
            invariant
                i <= self.methods@.len(),
                c@ == class_name@,
                n@ == name@,
                d@ == descriptor@,
                forall|j: int|
                    i <= j < self@.len() ==> !(#[trigger] self@[j].0 == class_name@
                        && self@[j].1.name == name@ && self@[j].1.descriptor == descriptor@),
            decreases i,
        {
            let e = &self.methods[i - 1];
            if e.0 == c && e.1.name == n && e.1.descriptor == d {
                assert(self@[i - 1] == (class_name@, e.1@));
                return Some(&e.1);
            }
            i -= 1;
        }
        None
    }
}

} // verus!
