//! The two rule tables that direct the emitter: conversions of input
//! parameters and projections of output parameters.

use vstd::prelude::*;
use vstd::string::*;
use crate::error::GenerationError;
use crate::text::{all_distinct, same_text};

verus! {

/// A native input type that a wrapper takes in a safer form.
#[derive(Debug, PartialEq, Eq)]
pub struct ConversionRule {
    /// The native type signature that the rule matches.
    pub native: String,
    /// The type that the wrapper's parameter gets.
    pub surface: String,
    /// The statements that turn the surface value into the native one; the
    /// parameter's and the command's name are written into them.
    pub setup: String,
}

/// What a `ConversionRule` holds.
pub struct ConversionRuleView {
    pub native: Seq<char>,
    pub surface: Seq<char>,
    pub setup: Seq<char>,
}

impl View for ConversionRule {
    type V = ConversionRuleView;

    open spec fn view(&self) -> ConversionRuleView {
        ConversionRuleView { native: self.native@, surface: self.surface@, setup: self.setup@ }
    }
}

impl DeepView for ConversionRule {
    type V = ConversionRuleView;

    open spec fn deep_view(&self) -> ConversionRuleView {
        self@
    }
}

impl ConversionRule {
    /// The rule that gives parameters of the type `native` the type `surface`
    /// and sets them up with `setup`.
    pub fn new(native: &str, surface: &str, setup: &str) -> (r: Self)
        ensures
            r@ == (ConversionRuleView { native: native@, surface: surface@, setup: setup@ }),
    {
        ConversionRule {
            native: native.to_owned(),
            surface: surface.to_owned(),
            setup: setup.to_owned(),
        }
    }
}

/// A native pointer type through which a command hands a value back, and
/// which a wrapper turns into one more returned value.
#[derive(Debug, PartialEq, Eq)]
pub struct ProjectionRule {
    /// The native pointer type signature that the rule matches.
    pub native: String,
    /// The type of the value that the wrapper returns.
    pub value: String,
    /// The statements that make the local value and bind the parameter's
    /// name to its address; the parameter's name is written into them.
    pub init: String,
}

/// What a `ProjectionRule` holds.
pub struct ProjectionRuleView {
    pub native: Seq<char>,
    pub value: Seq<char>,
    pub init: Seq<char>,
}

impl View for ProjectionRule {
    type V = ProjectionRuleView;

    open spec fn view(&self) -> ProjectionRuleView {
        ProjectionRuleView { native: self.native@, value: self.value@, init: self.init@ }
    }
}

impl DeepView for ProjectionRule {
    type V = ProjectionRuleView;

    open spec fn deep_view(&self) -> ProjectionRuleView {
        self@
    }
}

impl ProjectionRule {
    /// The rule that returns what parameters of the type `native` point to
    /// as a `value`, from a local that `init` makes.
    pub fn new(native: &str, value: &str, init: &str) -> (r: Self)
        ensures
            r@ == (ProjectionRuleView { native: native@, value: value@, init: init@ }),
    {
        ProjectionRule { native: native.to_owned(), value: value.to_owned(), init: init.to_owned() }
    }
}

/// Both tables.  They are built before any text is emitted and only read
/// afterwards.
#[derive(Debug, PartialEq, Eq)]
pub struct RuleSet {
    pub conversions: Vec<ConversionRule>,
    pub projections: Vec<ProjectionRule>,
}

/// What a `RuleSet` holds: the rules of each table in their order.
pub struct RuleSetView {
    pub conversions: Seq<ConversionRuleView>,
    pub projections: Seq<ProjectionRuleView>,
}

impl View for RuleSet {
    type V = RuleSetView;

    open spec fn view(&self) -> RuleSetView {
        RuleSetView {
            conversions: self.conversions.deep_view(),
            projections: self.projections.deep_view(),
        }
    }
}

/// The first conversion rule registered for `ty`.
pub open spec fn find_conversion(rules: Seq<ConversionRuleView>, ty: Seq<char>) -> Option<
    ConversionRuleView,
>
    decreases rules.len(),
{
    if rules.len() == 0 {
        None
    } else if rules[0].native == ty {
        Some(rules[0])
    } else {
        find_conversion(rules.skip(1), ty)
    }
}

/// The first projection rule registered for `ty`.
pub open spec fn find_projection(rules: Seq<ProjectionRuleView>, ty: Seq<char>) -> Option<
    ProjectionRuleView,
>
    decreases rules.len(),
{
    if rules.len() == 0 {
        None
    } else if rules[0].native == ty {
        Some(rules[0])
    } else {
        find_projection(rules.skip(1), ty)
    }
}

/// The conversion rule that `ty` matches, if any.
pub open spec fn conversion_of(rules: RuleSetView, ty: Seq<char>) -> Option<ConversionRuleView> {
    find_conversion(rules.conversions, ty)
}

/// The projection rule that `ty` matches, if any.
pub open spec fn projection_of(rules: RuleSetView, ty: Seq<char>) -> Option<ProjectionRuleView> {
    find_projection(rules.projections, ty)
}

/// Whether a parameter of type `ty` becomes a returned value.
pub open spec fn is_projected(rules: RuleSetView, ty: Seq<char>) -> bool {
    projection_of(rules, ty).is_some()
}

/// The signatures that the two tables register, conversions first.
pub open spec fn signatures(rules: RuleSetView) -> Seq<Seq<char>> {
    Seq::new(rules.conversions.len(), |i: int| rules.conversions[i].native) + Seq::new(
        rules.projections.len(),
        |i: int| rules.projections[i].native,
    )
}

/// No signature is registered twice, in one table or across the two.
pub open spec fn unambiguous(rules: RuleSetView) -> bool {
    signatures(rules).no_duplicates()
}

/// A rule is found exactly for the signatures that the table registers.
pub proof fn lemma_find_conversion(rules: Seq<ConversionRuleView>, ty: Seq<char>)
    ensures
        match find_conversion(rules, ty) {
            Some(rule) => exists|i: int|
                0 <= i < rules.len() && rules[i] == rule && #[trigger] rules[i].native == ty,
            None => forall|i: int| 0 <= i < rules.len() ==> #[trigger] rules[i].native != ty,
        },
    decreases rules.len(),
{
    if rules.len() > 0 && rules[0].native != ty {
        lemma_find_conversion(rules.skip(1), ty);
        match find_conversion(rules, ty) {
            Some(rule) => {
                let i = choose|i: int|
                    0 <= i < rules.skip(1).len() && rules.skip(1)[i] == rule
                        && #[trigger] rules.skip(1)[i].native == ty;
                assert(rules[i + 1].native == ty);
            },
            None => {
                assert forall|i: int| 0 <= i < rules.len() implies #[trigger] rules[i].native
                    != ty by {
                    if i > 0 {
                        assert(rules.skip(1)[i - 1].native != ty);
                    }
                }
            },
        }
    } else if rules.len() > 0 {
        assert(rules[0].native == ty);
    }
}

/// A rule is found exactly for the signatures that the table registers.
pub proof fn lemma_find_projection(rules: Seq<ProjectionRuleView>, ty: Seq<char>)
    ensures
        match find_projection(rules, ty) {
            Some(rule) => exists|i: int|
                0 <= i < rules.len() && rules[i] == rule && #[trigger] rules[i].native == ty,
            None => forall|i: int| 0 <= i < rules.len() ==> #[trigger] rules[i].native != ty,
        },
    decreases rules.len(),
{
    if rules.len() > 0 && rules[0].native != ty {
        lemma_find_projection(rules.skip(1), ty);
        match find_projection(rules, ty) {
            Some(rule) => {
                let i = choose|i: int|
                    0 <= i < rules.skip(1).len() && rules.skip(1)[i] == rule
                        && #[trigger] rules.skip(1)[i].native == ty;
                assert(rules[i + 1].native == ty);
            },
            None => {
                assert forall|i: int| 0 <= i < rules.len() implies #[trigger] rules[i].native
                    != ty by {
                    if i > 0 {
                        assert(rules.skip(1)[i - 1].native != ty);
                    }
                }
            },
        }
    } else if rules.len() > 0 {
        assert(rules[0].native == ty);
    }
}

/// Under unambiguous tables no signature is both converted and projected.
pub proof fn lemma_unambiguous_exclusive(rules: RuleSetView, ty: Seq<char>)
    requires
        unambiguous(rules),
    ensures
        !(conversion_of(rules, ty).is_some() && projection_of(rules, ty).is_some()),
{
    lemma_find_conversion(rules.conversions, ty);
    lemma_find_projection(rules.projections, ty);
    if conversion_of(rules, ty).is_some() && projection_of(rules, ty).is_some() {
        let i = choose|i: int|
            0 <= i < rules.conversions.len() && #[trigger] rules.conversions[i].native == ty;
        let j = choose|j: int|
            0 <= j < rules.projections.len() && #[trigger] rules.projections[j].native == ty;
        let all = signatures(rules);
        assert(all[i] == ty);
        assert(all[rules.conversions.len() + j] == ty);
    }
}

impl RuleSet {
    /// The conversion rule that `ty` matches, if any.
    pub fn conversion(&self, ty: &str) -> (r: Option<&ConversionRule>)
        ensures
            match r {
                Some(rule) => conversion_of(self@, ty@) == Some(rule@),
                None => conversion_of(self@, ty@).is_none(),
            },
    {
        let ghost all = self.conversions.deep_view();
        let mut i: usize = 0;
        proof {
            assert(all.skip(0) =~= all);
        }
        while i < self.conversions.len()
            invariant
                i <= self.conversions.len(),
                all == self.conversions.deep_view(),
                find_conversion(all, ty@) == find_conversion(all.skip(i as int), ty@),
            decreases self.conversions.len() - i,
        {
            proof {
                assert(all.skip(i as int)[0] == self.conversions[i as int]@);
                assert(all.skip(i as int).skip(1) =~= all.skip(i + 1));
            }
            if same_text(self.conversions[i].native.as_str(), ty) {
                return Some(&self.conversions[i]);
            }
            i += 1;
        }
        None
    }

    /// The projection rule that `ty` matches, if any.
    pub fn projection(&self, ty: &str) -> (r: Option<&ProjectionRule>)
        ensures
            match r {
                Some(rule) => projection_of(self@, ty@) == Some(rule@),
                None => projection_of(self@, ty@).is_none(),
            },
    {
        let ghost all = self.projections.deep_view();
        let mut i: usize = 0;
        proof {
            assert(all.skip(0) =~= all);
        }
        while i < self.projections.len()
            invariant
                i <= self.projections.len(),
                all == self.projections.deep_view(),
                find_projection(all, ty@) == find_projection(all.skip(i as int), ty@),
            decreases self.projections.len() - i,
        {
            proof {
                assert(all.skip(i as int)[0] == self.projections[i as int]@);
                assert(all.skip(i as int).skip(1) =~= all.skip(i + 1));
            }
            if same_text(self.projections[i].native.as_str(), ty) {
                return Some(&self.projections[i]);
            }
            i += 1;
        }
        None
    }

    /// The signatures that the two tables register, conversions first.
    pub fn signatures(&self) -> (r: Vec<String>)
        ensures
            r.deep_view() == signatures(self@),
    {
        let mut r: Vec<String> = Vec::new();
        let mut i: usize = 0;
        while i < self.conversions.len()
            invariant
                i <= self.conversions.len(),
                r.len() == i,
                forall|k: int| 0 <= k < i ==> r@[k]@ == self.conversions@[k].native@,
            decreases self.conversions.len() - i,
        {
            r.push(self.conversions[i].native.clone());
            i += 1;
        }
        let mut j: usize = 0;
        while j < self.projections.len()
            invariant
                j <= self.projections.len(),
                r.len() == self.conversions.len() + j,
                forall|k: int|
                    0 <= k < self.conversions.len() ==> r@[k]@ == self.conversions@[k].native@,
                forall|k: int|
                    0 <= k < j ==> r@[self.conversions.len() + k]@ == self.projections@[k].native@,
            decreases self.projections.len() - j,
        {
            r.push(self.projections[j].native.clone());
            j += 1;
        }
        proof {
            assert(r.deep_view() =~= signatures(self@));
        }
        r
    }

    /// Builds the tables from their rules, and refuses rules that register a
    /// signature twice.
    pub fn new(conversions: Vec<ConversionRule>, projections: Vec<ProjectionRule>) -> (r: Result<
        RuleSet,
        GenerationError,
    >)
        ensures
            match r {
                Ok(rules) => rules.conversions == conversions && rules.projections == projections
                    && unambiguous(rules@),
                Err(e) => e == GenerationError::AmbiguousRule && !unambiguous(
                    (RuleSet { conversions, projections })@,
                ),
            },
    {
        let rules = RuleSet { conversions, projections };
        match rules.check() {
            Ok(_) => Ok(rules),
            Err(e) => Err(e),
        }
    }

    /// Accepts the tables if no signature is registered twice.
    pub fn check(&self) -> (r: Result<(), GenerationError>)
        ensures
            r.is_ok() <==> unambiguous(self@),
            r.is_err() ==> r == Err::<(), GenerationError>(GenerationError::AmbiguousRule),
    {
        let keys = self.signatures();
        if all_distinct(&keys) {
            Ok(())
        } else {
            Err(GenerationError::AmbiguousRule)
        }
    }
}

/// Where a rule's statements name the parameter.
pub const PARAM_KEY: &'static str = "{param}";

/// Where a rule's statements name the command.
pub const CMD_KEY: &'static str = "{cmd}";

pub const NATIVE_CHARS: &'static str = "*const types::GLchar";

pub const NATIVE_CHAR_ARRAYS: &'static str = "*const *const types::GLchar";

pub const NATIVE_INTS: &'static str = "*const types::GLint";

pub const NATIVE_FLOATS: &'static str = "*const types::GLfloat";

pub const NATIVE_DOUBLES: &'static str = "*const types::GLdouble";

pub const NATIVE_UINTS: &'static str = "*const types::GLuint";

pub const NATIVE_ENUMS: &'static str = "*const types::GLenum";

pub const SURFACE_CHARS: &'static str = "&str";

pub const SURFACE_CHAR_ARRAYS: &'static str = "Vec<&str>";

pub const SURFACE_INTS: &'static str = "&[types::GLint]";

pub const SURFACE_FLOATS: &'static str = "&[types::GLfloat]";

pub const SURFACE_DOUBLES: &'static str = "&[types::GLdouble]";

pub const SURFACE_UINTS: &'static str = "&[types::GLuint]";

pub const SURFACE_ENUMS: &'static str = "&[types::GLenum]";

/// Copies a host string into a null-terminated buffer and binds the
/// parameter's name to the buffer's address.
pub const SETUP_CHARS: &'static str =
    "let {param}_c_string = std::ffi::CString::new({param}.as_bytes()).expect(\"Failed to create CString in GL Call {cmd}\");\nlet {param} = {param}_c_string.as_ptr();";

/// Copies each host string into a null-terminated buffer and binds the
/// parameter's name to an array of their addresses that lives through the call.
pub const SETUP_CHAR_ARRAYS: &'static str =
    "let {param}_c_string_vec = {param}.iter().map(|s| std::ffi::CString::new(s.as_bytes()).expect(\"Failed to create CString in GL Call {cmd}\")).collect::<Vec<std::ffi::CString>>();\nlet {param}_vec = {param}_c_string_vec.iter().map(|c_string| c_string.as_ptr()).collect::<Vec<*const i8>>();\nlet {param} = {param}_vec.as_ptr();";

/// Binds the parameter's name to the address of a slice's first element.
pub const SETUP_SLICE: &'static str = "let {param} = {param}.as_ptr();";

pub const OUT_SIZEI: &'static str = "*mut types::GLsizei";

pub const OUT_INT: &'static str = "*mut types::GLint";

pub const OUT_UINT: &'static str = "*mut types::GLuint";

pub const VALUE_SIZEI: &'static str = "types::GLsizei";

pub const VALUE_INT: &'static str = "types::GLint";

pub const VALUE_UINT: &'static str = "types::GLuint";

/// Makes a zeroed local value and binds the parameter's name to its address.
pub const INIT_VALUE: &'static str = "let mut {param}_ret = 0;\nlet {param} = &mut {param}_ret;";

/// As `INIT_VALUE`, with a note that a single value is expected.
pub const INIT_SINGLE_VALUE: &'static str =
    "// assuming that this pointer points to only one value\nlet mut {param}_ret = 0;\nlet {param} = &mut {param}_ret;";

/// The tables of the typed generator.
pub open spec fn standard_rules() -> RuleSetView {
    RuleSetView {
        conversions: seq![
            ConversionRuleView {
                native: NATIVE_CHARS@,
                surface: SURFACE_CHARS@,
                setup: SETUP_CHARS@,
            },
            ConversionRuleView {
                native: NATIVE_CHAR_ARRAYS@,
                surface: SURFACE_CHAR_ARRAYS@,
                setup: SETUP_CHAR_ARRAYS@,
            },
            ConversionRuleView {
                native: NATIVE_INTS@,
                surface: SURFACE_INTS@,
                setup: SETUP_SLICE@,
            },
            ConversionRuleView {
                native: NATIVE_FLOATS@,
                surface: SURFACE_FLOATS@,
                setup: SETUP_SLICE@,
            },
            ConversionRuleView {
                native: NATIVE_DOUBLES@,
                surface: SURFACE_DOUBLES@,
                setup: SETUP_SLICE@,
            },
            ConversionRuleView {
                native: NATIVE_UINTS@,
                surface: SURFACE_UINTS@,
                setup: SETUP_SLICE@,
            },
            ConversionRuleView {
                native: NATIVE_ENUMS@,
                surface: SURFACE_ENUMS@,
                setup: SETUP_SLICE@,
            },
        ],
        projections: seq![
            ProjectionRuleView { native: OUT_SIZEI@, value: VALUE_SIZEI@, init: INIT_VALUE@ },
            ProjectionRuleView { native: OUT_INT@, value: VALUE_INT@, init: INIT_SINGLE_VALUE@ },
            ProjectionRuleView { native: OUT_UINT@, value: VALUE_UINT@, init: INIT_SINGLE_VALUE@ },
        ],
    }
}

/// The standard tables register no signature twice.
pub proof fn lemma_standard_rules_unambiguous()
    ensures
        unambiguous(standard_rules()),
{
    reveal_strlit("*const types::GLchar");
    reveal_strlit("*const *const types::GLchar");
    reveal_strlit("*const types::GLint");
    reveal_strlit("*const types::GLfloat");
    reveal_strlit("*const types::GLdouble");
    reveal_strlit("*const types::GLuint");
    reveal_strlit("*const types::GLenum");
    reveal_strlit("*mut types::GLsizei");
    reveal_strlit("*mut types::GLint");
    reveal_strlit("*mut types::GLuint");
    let all = signatures(standard_rules());
    assert(all.len() == 10);
    assert(all[0] == NATIVE_CHARS@ && all[0].len() == 20 && all[0][16] == 'c');
    assert(all[1] == NATIVE_CHAR_ARRAYS@ && all[1].len() == 27);
    assert(all[2] == NATIVE_INTS@ && all[2].len() == 19 && all[2][1] == 'c');
    assert(all[3] == NATIVE_FLOATS@ && all[3].len() == 21);
    assert(all[4] == NATIVE_DOUBLES@ && all[4].len() == 22);
    assert(all[5] == NATIVE_UINTS@ && all[5].len() == 20 && all[5][16] == 'u');
    assert(all[6] == NATIVE_ENUMS@ && all[6].len() == 20 && all[6][16] == 'e');
    assert(all[7] == OUT_SIZEI@ && all[7].len() == 19 && all[7][1] == 'm');
    assert(all[8] == OUT_INT@ && all[8].len() == 17);
    assert(all[9] == OUT_UINT@ && all[9].len() == 18);
}

impl RuleSet {
    /// Builds the tables of the typed generator.
    pub fn standard() -> (r: RuleSet)
        ensures
            r@ == standard_rules(),
            unambiguous(r@),
    {
        let mut conversions: Vec<ConversionRule> = Vec::new();
        conversions.push(ConversionRule::new(NATIVE_CHARS, SURFACE_CHARS, SETUP_CHARS));
        conversions.push(
            ConversionRule::new(NATIVE_CHAR_ARRAYS, SURFACE_CHAR_ARRAYS, SETUP_CHAR_ARRAYS),
        );
        conversions.push(ConversionRule::new(NATIVE_INTS, SURFACE_INTS, SETUP_SLICE));
        conversions.push(ConversionRule::new(NATIVE_FLOATS, SURFACE_FLOATS, SETUP_SLICE));
        conversions.push(ConversionRule::new(NATIVE_DOUBLES, SURFACE_DOUBLES, SETUP_SLICE));
        conversions.push(ConversionRule::new(NATIVE_UINTS, SURFACE_UINTS, SETUP_SLICE));
        conversions.push(ConversionRule::new(NATIVE_ENUMS, SURFACE_ENUMS, SETUP_SLICE));
        let mut projections: Vec<ProjectionRule> = Vec::new();
        projections.push(ProjectionRule::new(OUT_SIZEI, VALUE_SIZEI, INIT_VALUE));
        projections.push(ProjectionRule::new(OUT_INT, VALUE_INT, INIT_SINGLE_VALUE));
        projections.push(ProjectionRule::new(OUT_UINT, VALUE_UINT, INIT_SINGLE_VALUE));
        let r = RuleSet { conversions, projections };
        proof {
            assert(r@.conversions =~= standard_rules().conversions);
            assert(r@.projections =~= standard_rules().projections);
            lemma_standard_rules_unambiguous();
        }
        r
    }
}

/// Whether a parameter of type `ty` becomes a returned value.
pub fn is_return_type(rules: &RuleSet, ty: &str) -> (r: bool)
    ensures
        r == is_projected(rules@, ty@),
{
    rules.projection(ty).is_some()
}

} // verus!
