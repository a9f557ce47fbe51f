//! Classes: a type definition together with its place in the hierarchy.

use crate::diag::{count_of, Diagnostic, Errors, Problem, Site};
use crate::items::text_of;
use crate::type_definition::{TypeDefinition, TypeDefinitionView};
use crate::wrapper::{report_if, texts};
use vstd::prelude::*;

verus! {

/// The options given with a class definition.
#[derive(Debug)]
pub struct ClassOptions {
    /// The type's name, overriding whatever the module suggests.
    pub name: Option<String>,
    /// Prefix of the name under which the type is registered.
    pub ns: Option<String>,
    /// Name of the extension trait.
    pub ext_trait: Option<String>,
    /// The trait that the implementation trait builds on.
    pub parent_trait: Option<String>,
    /// Whether the wrapper type is generated; yes where nothing is said.
    pub wrapper: Option<bool>,
    pub abstract_: bool,
    pub final_: bool,
    /// The ancestors, the direct parent first.
    pub extends: Vec<String>,
    /// The interfaces that the class implements.
    pub implements: Vec<String>,
}

pub struct ClassOptionsView {
    pub name: Option<Seq<char>>,
    pub ns: Option<Seq<char>>,
    pub ext_trait: Option<Seq<char>>,
    pub parent_trait: Option<Seq<char>>,
    pub wrapper: Option<bool>,
    pub abstract_: bool,
    pub final_: bool,
    pub extends: Seq<Seq<char>>,
    pub implements: Seq<Seq<char>>,
}

impl View for ClassOptions {
    type V = ClassOptionsView;

    open spec fn view(&self) -> ClassOptionsView {
        ClassOptionsView {
            name: text_of(self.name),
            ns: text_of(self.ns),
            ext_trait: text_of(self.ext_trait),
            parent_trait: text_of(self.parent_trait),
            wrapper: self.wrapper,
            abstract_: self.abstract_,
            final_: self.final_,
            extends: texts(self.extends@),
            implements: texts(self.implements@),
        }
    }
}

/// The name of a class: the one given in the options, or else the one that
/// the module yields.
pub open spec fn class_name(opts: ClassOptionsView, def: TypeDefinitionView) -> Option<Seq<char>> {
    match opts.name {
        Some(n) => Some(n),
        None => def.name,
    }
}

/// What validation of the options reports: a class without a name, then a
/// class that is both abstract and final. Each is reported once.
pub open spec fn validation_reports(opts: ClassOptionsView, def: TypeDefinitionView) -> Seq<
    Diagnostic,
> {
    report_if(class_name(opts, def) is None, Site::Options, Problem::MissingName) + report_if(
        opts.abstract_ && opts.final_,
        Site::Options,
        Problem::ConflictingModifiers,
    )
}

/// A class declared both abstract and final gets exactly one diagnostic
/// about its modifiers; any other class gets none.
pub proof fn law_conflicting_modifiers_reported_once(opts: ClassOptionsView, def: TypeDefinitionView)
    ensures
        count_of(validation_reports(opts, def), Problem::ConflictingModifiers) == if opts.abstract_
            && opts.final_ {
            1nat
        } else {
            0nat
        },
        validation_reports(opts, def).len() <= 2,
{
    let a = report_if(class_name(opts, def) is None, Site::Options, Problem::MissingName);
    let b = report_if(
        opts.abstract_ && opts.final_,
        Site::Options,
        Problem::ConflictingModifiers,
    );
    let r = a + b;
    reveal_with_fuel(count_of, 3);
    if a.len() == 0 {
        assert(r =~= b);
    }
    if b.len() == 0 {
        assert(r =~= a);
    }
    if r.len() > 0 {
        assert(r.drop_last().len() == r.len() - 1);
        if r.len() == 2 {
            assert(r.drop_last() =~= a);
            assert(r.last() == b[0]);
            assert(a.drop_last() =~= Seq::<Diagnostic>::empty());
        } else {
            assert(r.drop_last() =~= Seq::<Diagnostic>::empty());
        }
    }
}

impl ClassOptions {
    /// Options that say nothing.
    pub fn new() -> (out: ClassOptions)
        ensures
            out@ == (ClassOptionsView {
                name: None,
                ns: None,
                ext_trait: None,
                parent_trait: None,
                wrapper: None,
                abstract_: false,
                final_: false,
                extends: Seq::empty(),
                implements: Seq::empty(),
            }),
    {
        let out = ClassOptions {
            name: None,
            ns: None,
            ext_trait: None,
            parent_trait: None,
            wrapper: None,
            abstract_: false,
            final_: false,
            extends: Vec::new(),
            implements: Vec::new(),
        };
        assert(out@.extends =~= Seq::empty());
        assert(out@.implements =~= Seq::empty());
        out
    }

    /// Checks the options against the definition and reports what is
    /// wrong with them.
    pub fn validate(&self, def: &TypeDefinition, errors: &mut Errors)
        ensures
            final(errors)@ == old(errors)@ + validation_reports(self@, def@),
    {
        if self.name.is_none() && def.name.is_none() {
            errors.push(Site::Options, Problem::MissingName);
        }
        if self.abstract_ && self.final_ {
            errors.push(Site::Options, Problem::ConflictingModifiers);
        }
        assert(errors@ =~= old(errors)@ + validation_reports(self@, def@));
    }
}

/// A class.
#[derive(Debug)]
pub struct ClassDefinition {
    pub inner: TypeDefinition,
    pub ns: Option<String>,
    pub ext_trait: Option<String>,
    pub parent_trait: Option<String>,
    pub wrapper: bool,
    pub abstract_: bool,
    pub final_: bool,
    pub extends: Vec<String>,
    pub implements: Vec<String>,
    /// Statements added to the class-initialization hook.
    pub extra_class_init_stmts: Vec<String>,
    /// Statements added to the instance-initialization hook.
    pub extra_instance_init_stmts: Vec<String>,
}

pub struct ClassDefinitionView {
    pub inner: TypeDefinitionView,
    pub ns: Option<Seq<char>>,
    pub ext_trait: Option<Seq<char>>,
    pub parent_trait: Option<Seq<char>>,
    pub wrapper: bool,
    pub abstract_: bool,
    pub final_: bool,
    pub extends: Seq<Seq<char>>,
    pub implements: Seq<Seq<char>>,
    pub extra_class_init_stmts: Seq<Seq<char>>,
    pub extra_instance_init_stmts: Seq<Seq<char>>,
}

impl View for ClassDefinition {
    type V = ClassDefinitionView;

    open spec fn view(&self) -> ClassDefinitionView {
        ClassDefinitionView {
            inner: self.inner@,
            ns: text_of(self.ns),
            ext_trait: text_of(self.ext_trait),
            parent_trait: text_of(self.parent_trait),
            wrapper: self.wrapper,
            abstract_: self.abstract_,
            final_: self.final_,
            extends: texts(self.extends@),
            implements: texts(self.implements@),
            extra_class_init_stmts: texts(self.extra_class_init_stmts@),
            extra_instance_init_stmts: texts(self.extra_instance_init_stmts@),
        }
    }
}

/// The class that a definition and its options make.
pub open spec fn class_of(def: TypeDefinitionView, opts: ClassOptionsView, crate_ident: Seq<char>) -> ClassDefinitionView {
    ClassDefinitionView {
        inner: TypeDefinitionView { name: class_name(opts, def), crate_ident, ..def },
        ns: opts.ns,
        ext_trait: opts.ext_trait,
        parent_trait: opts.parent_trait,
        wrapper: match opts.wrapper {
            Some(w) => w,
            None => true,
        },
        abstract_: opts.abstract_,
        final_: opts.final_,
        extends: opts.extends,
        implements: opts.implements,
        extra_class_init_stmts: Seq::empty(),
        extra_instance_init_stmts: Seq::empty(),
    }
}

/// The names of the generated methods into which statements can be
/// spliced, or which the user may write in full.
pub open spec fn custom_method_names() -> Seq<Seq<char>> {
    seq![
        "properties"@,
        "signals"@,
        "set_property"@,
        "property"@,
        "constructed"@,
        "dispose"@,
        "type_init"@,
        "new"@,
        "with_class"@,
        "class_init"@,
        "instance_init"@,
    ]
}

impl ClassDefinition {
    /// The well-formedness of the class is that of its definition.
    pub open spec fn wf(&self) -> bool {
        self.inner.wf()
    }

    /// The names of the generated methods of a class that the user can
    /// take over.
    pub fn type_parser() -> (out: Vec<&'static str>)
        ensures
            Seq::new(out@.len(), |i: int| out@[i]@) == custom_method_names(),
    {
        let mut out: Vec<&'static str> = Vec::new();
        out.push("properties");
        out.push("signals");
        out.push("set_property");
        out.push("property");
        out.push("constructed");
        out.push("dispose");
        out.push("type_init");
        out.push("new");
        out.push("with_class");
        out.push("class_init");
        out.push("instance_init");
        assert(Seq::new(out@.len(), |i: int| out@[i]@) =~= custom_method_names());
        out
    }

    /// Makes a class of a definition and its options. The options are
    /// validated first; what is wrong is reported, and the class is made
    /// all the same.
    pub fn from_type(
        def: TypeDefinition,
        opts: ClassOptions,
        crate_ident: String,
        errors: &mut Errors,
    ) -> (class: ClassDefinition)
        requires
            def.wf(),
        ensures
            class@ == class_of(def@, opts@, crate_ident@),
            class.wf(),
            final(errors)@ == old(errors)@ + validation_reports(opts@, def@),
    {
        opts.validate(&def, errors);
        let mut inner = def;
        match opts.name {
            Some(n) => {
                inner.name = Some(n);
            },
            None => {},
        }
        inner.crate_ident = crate_ident;
        let class = ClassDefinition {
            inner,
            ns: opts.ns,
            ext_trait: opts.ext_trait,
            parent_trait: opts.parent_trait,
            wrapper: match opts.wrapper {
                Some(w) => w,
                None => true,
            },
            abstract_: opts.abstract_,
            final_: opts.final_,
            extends: opts.extends,
            implements: opts.implements,
            extra_class_init_stmts: Vec::new(),
            extra_instance_init_stmts: Vec::new(),
        };
        assert(class@.extra_class_init_stmts =~= Seq::empty());
        assert(class@.extra_instance_init_stmts =~= Seq::empty());
        class
    }
}

} // verus!
