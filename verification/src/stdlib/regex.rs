use vstd::prelude::*;
use crate::runtime::jvm::{Jvm, only_methods_added};
use crate::runtime::method::{method_view, static_view, Method, MethodView, Native};

verus! {

/// The native implementations this library provides for these classes.
#[derive(Clone, Copy, Debug, PartialEq, Eq, Structural)]
pub enum RegexNative {
    PatternCompile,
    PatternMatches,
    PatternMatcher,
    MatcherMatches,
    MatcherFind,
    MatcherGroup,
}

pub struct Pattern;

impl Pattern {
    /// The method `java.util.regex.Pattern.compile(Ljava/lang/String;)Ljava/util/regex/Pattern;`.
    pub fn compile() -> (m: Method)
        ensures
            m@ == method_view("java.util.regex.Pattern"@, "compile"@, "(Ljava/lang/String;)Ljava/util/regex/Pattern;"@, true, Some(Native::Regex(RegexNative::PatternCompile))),
    {
        Method::new_native("java.util.regex.Pattern", "compile", "(Ljava/lang/String;)Ljava/util/regex/Pattern;", true, Some(Native::Regex(RegexNative::PatternCompile)))
    }

    /// The method `java.util.regex.Pattern.matches(Ljava/lang/String;Ljava/lang/CharSequence;)Z`.
    pub fn matches() -> (m: Method)
        ensures
            m@ == method_view("java.util.regex.Pattern"@, "matches"@, "(Ljava/lang/String;Ljava/lang/CharSequence;)Z"@, true, Some(Native::Regex(RegexNative::PatternMatches))),
    {
        Method::new_native("java.util.regex.Pattern", "matches", "(Ljava/lang/String;Ljava/lang/CharSequence;)Z", true, Some(Native::Regex(RegexNative::PatternMatches)))
    }

    /// The method `java.util.regex.Pattern.matcher(Ljava/lang/CharSequence;)Ljava/util/regex/Matcher;`.
    pub fn matcher() -> (m: Method)
        ensures
            m@ == method_view("java.util.regex.Pattern"@, "matcher"@, "(Ljava/lang/CharSequence;)Ljava/util/regex/Matcher;"@, false, Some(Native::Regex(RegexNative::PatternMatcher))),
    {
        Method::new_native("java.util.regex.Pattern", "matcher", "(Ljava/lang/CharSequence;)Ljava/util/regex/Matcher;", false, Some(Native::Regex(RegexNative::PatternMatcher)))
    }

    /// What `register` adds to the method area, in order.
    pub open spec fn registered() -> Seq<(Seq<char>, MethodView)> {
        seq![
            ("java.util.regex.Pattern"@, method_view("java.util.regex.Pattern"@, "compile"@, "(Ljava/lang/String;)Ljava/util/regex/Pattern;"@, true, Some(Native::Regex(RegexNative::PatternCompile)))),
            ("java.util.regex.Pattern"@, method_view("java.util.regex.Pattern"@, "matches"@, "(Ljava/lang/String;Ljava/lang/CharSequence;)Z"@, true, Some(Native::Regex(RegexNative::PatternMatches)))),
            ("java.util.regex.Pattern"@, method_view("java.util.regex.Pattern"@, "matcher"@, "(Ljava/lang/CharSequence;)Ljava/util/regex/Matcher;"@, false, Some(Native::Regex(RegexNative::PatternMatcher)))),
        ]
    }

    pub fn register(jvm: &mut Jvm)
        ensures
            only_methods_added(*old(jvm), *final(jvm), Self::registered()),
    {
        jvm.method_area.add_native_method("java.util.regex.Pattern", Pattern::compile());
        jvm.method_area.add_native_method("java.util.regex.Pattern", Pattern::matches());
        jvm.method_area.add_native_method("java.util.regex.Pattern", Pattern::matcher());
        assert(jvm.method_area@ =~= old(jvm).method_area@ + Self::registered());
    }
}

pub struct Matcher;

impl Matcher {
    /// The method `java.util.regex.Matcher.matches()Z`.
    pub fn matches() -> (m: Method)
        ensures
            m@ == method_view("java.util.regex.Matcher"@, "matches"@, "()Z"@, false, Some(Native::Regex(RegexNative::MatcherMatches))),
    {
        Method::new_native("java.util.regex.Matcher", "matches", "()Z", false, Some(Native::Regex(RegexNative::MatcherMatches)))
    }

    /// The method `java.util.regex.Matcher.find()Z`.
    pub fn find() -> (m: Method)
        ensures
            m@ == method_view("java.util.regex.Matcher"@, "find"@, "()Z"@, false, Some(Native::Regex(RegexNative::MatcherFind))),
    {
        Method::new_native("java.util.regex.Matcher", "find", "()Z", false, Some(Native::Regex(RegexNative::MatcherFind)))
    }

    /// The method `java.util.regex.Matcher.group()Ljava/lang/String;`.
    pub fn group() -> (m: Method)
        ensures
            m@ == method_view("java.util.regex.Matcher"@, "group"@, "()Ljava/lang/String;"@, false, Some(Native::Regex(RegexNative::MatcherGroup))),
    {
        Method::new_native("java.util.regex.Matcher", "group", "()Ljava/lang/String;", false, Some(Native::Regex(RegexNative::MatcherGroup)))
    }

    /// What `register` adds to the method area, in order.
    pub open spec fn registered() -> Seq<(Seq<char>, MethodView)> {
        seq![
            ("java.util.regex.Matcher"@, method_view("java.util.regex.Matcher"@, "matches"@, "()Z"@, false, Some(Native::Regex(RegexNative::MatcherMatches)))),
            ("java.util.regex.Matcher"@, method_view("java.util.regex.Matcher"@, "find"@, "()Z"@, false, Some(Native::Regex(RegexNative::MatcherFind)))),
            ("java.util.regex.Matcher"@, method_view("java.util.regex.Matcher"@, "group"@, "()Ljava/lang/String;"@, false, Some(Native::Regex(RegexNative::MatcherGroup)))),
        ]
    }

    pub fn register(jvm: &mut Jvm)
        ensures
            only_methods_added(*old(jvm), *final(jvm), Self::registered()),
    {
        jvm.method_area.add_native_method("java.util.regex.Matcher", Matcher::matches());
        jvm.method_area.add_native_method("java.util.regex.Matcher", Matcher::find());
        jvm.method_area.add_native_method("java.util.regex.Matcher", Matcher::group());
        assert(jvm.method_area@ =~= old(jvm).method_area@ + Self::registered());
    }
}


/// The method area `before` with everything `register_regex_classes` adds, in order.
pub open spec fn with_all_registrations(before: Seq<(Seq<char>, MethodView)>) -> Seq<(Seq<char>, MethodView)> {
    before + Pattern::registered() + Matcher::registered()
}

/// Register all regex classes with the JVM.
pub fn register_regex_classes(jvm: &mut Jvm)
    ensures
        final(jvm).method_area@ == with_all_registrations(old(jvm).method_area@),
        static_view(&final(jvm).method_area) == static_view(&old(jvm).method_area),
        final(jvm).heap@ == old(jvm).heap@,
        final(jvm).scheduler == old(jvm).scheduler,
        final(jvm).thread_objects@ == old(jvm).thread_objects@,
        final(jvm).current_thread_id == old(jvm).current_thread_id,
{
    Pattern::register(jvm);
    Matcher::register(jvm);
}

} // verus!
