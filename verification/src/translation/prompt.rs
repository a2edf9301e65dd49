//! Prompt templates: a text with `{{name}}` placeholders and the values to
//! put in their place.
//!
//! The variables form a mapping from names to values. They are kept in the
//! order in which their names were first set, and `render` substitutes them
//! one after another in that order, so that a rendering is a function of the
//! template text and the variables alone.

use crate::text::{contains, occurs_at, replace_all, substitute};
use vstd::prelude::*;

verus! {

/// The variables of a template: names with their values, in the order in
/// which the names were first set.
pub type Bindings = Seq<(Seq<char>, Seq<char>)>;

/// The text that stands for the variable `name` in a template.
pub open spec fn placeholder(name: Seq<char>) -> Seq<char> {
    "{{"@ + name + "}}"@
}

/// `text` after the placeholders of `bindings` were replaced by their
/// values, one variable after another.
pub open spec fn render_with(text: Seq<char>, bindings: Bindings) -> Seq<char>
    decreases bindings.len(),
{
    if bindings.len() == 0 {
        text
    } else {
        render_with(
            substitute(text, placeholder(bindings[0].0), bindings[0].1),
            bindings.drop_first(),
        )
    }
}

/// The value of `name` in `bindings`, if it has one.
pub open spec fn lookup(bindings: Bindings, name: Seq<char>) -> Option<Seq<char>>
    decreases bindings.len(),
{
    if bindings.len() == 0 {
        None
    } else if bindings[0].0 == name {
        Some(bindings[0].1)
    } else {
        lookup(bindings.drop_first(), name)
    }
}

/// `bindings` with `name` set to `value`: in the place that `name` has, or at
/// the end if it has none.
pub open spec fn assign(bindings: Bindings, name: Seq<char>, value: Seq<char>) -> Bindings
    decreases bindings.len(),
{
    if bindings.len() == 0 {
        seq![(name, value)]
    } else if bindings[0].0 == name {
        seq![(name, value)] + bindings.drop_first()
    } else {
        seq![bindings[0]] + assign(bindings.drop_first(), name, value)
    }
}

/// No name occurs twice in `bindings`.
pub open spec fn distinct_names(bindings: Bindings) -> bool {
    forall|i: int, j: int|
        0 <= i < j < bindings.len() ==> (#[trigger] bindings[i]).0 != (#[trigger] bindings[j]).0
}

/// No placeholder of `bindings` is a part of `text`.
pub open spec fn free_of_placeholders(text: Seq<char>, bindings: Bindings) -> bool {
    forall|i: int|
        0 <= i < bindings.len() ==> !contains(text, placeholder((#[trigger] bindings[i]).0))
}

/// Setting a variable is a write to a mapping: the name then has the new
/// value, and every other name has what it had.
pub proof fn lemma_assign_is_map_update(
    bindings: Bindings,
    name: Seq<char>,
    value: Seq<char>,
    other: Seq<char>,
)
    ensures
        lookup(assign(bindings, name, value), name) == Some(value),
        other != name ==> lookup(assign(bindings, name, value), other) == lookup(bindings, other),
    decreases bindings.len(),
{
    let assigned = assign(bindings, name, value);
    if bindings.len() == 0 {
        assert(assigned.drop_first() =~= bindings);
    } else if bindings[0].0 == name {
        assert(assigned.drop_first() =~= bindings.drop_first());
    } else {
        let rest = assign(bindings.drop_first(), name, value);
        lemma_assign_is_map_update(bindings.drop_first(), name, value, other);
        assert(assigned.drop_first() =~= rest);
        assert(assigned[0] == bindings[0]);
    }
}

/// Where `name` stands at `i` in `bindings`, and nowhere before, setting it
/// changes the value there.
pub proof fn lemma_assign_at(bindings: Bindings, name: Seq<char>, value: Seq<char>, i: int)
    requires
        0 <= i < bindings.len(),
        bindings[i].0 == name,
        forall|j: int| 0 <= j < i ==> (#[trigger] bindings[j]).0 != name,
    ensures
        assign(bindings, name, value) == bindings.update(i, (name, value)),
    decreases i,
{
    if i == 0 {
        assert(seq![(name, value)] + bindings.drop_first() =~= bindings.update(0, (name, value)));
    } else {
        let rest = bindings.drop_first();
        assert(bindings[0].0 != name);
        assert forall|j: int| 0 <= j < i - 1 implies (#[trigger] rest[j]).0 != name by {
            assert(rest[j] == bindings[j + 1]);
        }
        lemma_assign_at(rest, name, value, i - 1);
        assert(seq![bindings[0]] + rest.update(i - 1, (name, value)) =~= bindings.update(
            i,
            (name, value),
        ));
    }
}

/// Where `name` does not stand in `bindings`, setting it appends it.
pub proof fn lemma_assign_new(bindings: Bindings, name: Seq<char>, value: Seq<char>)
    requires
        forall|j: int| 0 <= j < bindings.len() ==> (#[trigger] bindings[j]).0 != name,
    ensures
        assign(bindings, name, value) == bindings.push((name, value)),
    decreases bindings.len(),
{
    if bindings.len() == 0 {
        assert(seq![(name, value)] =~= bindings.push((name, value)));
    } else {
        let rest = bindings.drop_first();
        assert(bindings[0].0 != name);
        assert forall|j: int| 0 <= j < rest.len() implies (#[trigger] rest[j]).0 != name by {
            assert(rest[j] == bindings[j + 1]);
        }
        lemma_assign_new(rest, name, value);
        assert(seq![bindings[0]] + rest.push((name, value)) =~= bindings.push((name, value)));
    }
}

/// Setting a variable keeps the names distinct.
pub proof fn lemma_assign_keeps_names_distinct(
    bindings: Bindings,
    name: Seq<char>,
    value: Seq<char>,
)
    requires
        distinct_names(bindings),
    ensures
        distinct_names(assign(bindings, name, value)),
{
    if exists|i: int| 0 <= i < bindings.len() && (#[trigger] bindings[i]).0 == name {
        let i = choose|i: int| 0 <= i < bindings.len() && (#[trigger] bindings[i]).0 == name;
        assert forall|j: int| 0 <= j < i implies (#[trigger] bindings[j]).0 != name by {}
        lemma_assign_at(bindings, name, value, i);
    } else {
        lemma_assign_new(bindings, name, value);
    }
}

/// Substituting a text that does not occur changes nothing.
pub proof fn lemma_substitute_absent(s: Seq<char>, from: Seq<char>, to: Seq<char>)
    requires
        !contains(s, from),
    ensures
        substitute(s, from, to) == s,
    decreases s.len(),
{
    if from.len() == 0 || s.len() < from.len() {
    } else {
        assert(s.take(from.len() as int) =~= s.subrange(0, 0 + from.len() as int));
        assert(!occurs_at(s, from, 0));
        let rest = s.drop_first();
        assert forall|i: int| !occurs_at(rest, from, i) by {
            if occurs_at(rest, from, i) {
                assert(rest.subrange(i, i + from.len()) =~= s.subrange(i + 1, i + 1 + from.len()));
                assert(occurs_at(s, from, i + 1));
            }
        }
        lemma_substitute_absent(rest, from, to);
        assert(seq![s[0]] + rest =~= s);
    }
}

/// A text that holds none of the placeholders is its own rendering: what has
/// no variable, or was substituted already, is left as it stands.
pub proof fn lemma_render_without_placeholders(text: Seq<char>, bindings: Bindings)
    requires
        free_of_placeholders(text, bindings),
    ensures
        render_with(text, bindings) == text,
    decreases bindings.len(),
{
    if bindings.len() > 0 {
        let rest = bindings.drop_first();
        assert(!contains(text, placeholder(bindings[0].0)));
        lemma_substitute_absent(text, placeholder(bindings[0].0), bindings[0].1);
        assert forall|i: int| 0 <= i < rest.len() implies !contains(
            text,
            placeholder((#[trigger] rest[i]).0),
        ) by {
            assert(rest[i] == bindings[i + 1]);
        }
        lemma_render_without_placeholders(text, rest);
    }
}

/// Rendering is idempotent once the placeholders are gone: where the
/// rendering of `text` holds no placeholder of the variables any more,
/// rendering it again with the same variables yields the same text.
pub proof fn lemma_render_idempotent(text: Seq<char>, bindings: Bindings)
    requires
        free_of_placeholders(render_with(text, bindings), bindings),
    ensures
        render_with(render_with(text, bindings), bindings) == render_with(text, bindings),
{
    lemma_render_without_placeholders(render_with(text, bindings), bindings);
}

/// Rendering is a function of the template text and the variables: two
/// templates with the same text and the same variables have the same
/// rendering, and so have two renderings of one template.
pub proof fn lemma_render_repeatable(first: PromptTemplate, second: PromptTemplate)
    requires
        first.template() == second.template(),
        first.bindings() == second.bindings(),
    ensures
        first.rendering() == second.rendering(),
{
}

/// A variable of a template.
struct Variable {
    name: String,
    value: String,
}

/// A template for generating prompts.
pub struct PromptTemplate {
    template: String,
    variables: Vec<Variable>,
}

impl PromptTemplate {
    /// No variable was recorded twice: the variables are a mapping. Every
    /// template that `new` made and `set_variable` changed is well formed.
    pub open spec fn well_formed(&self) -> bool {
        distinct_names(self.bindings())
    }

    /// The text of the template, placeholders included.
    pub closed spec fn template(&self) -> Seq<char> {
        self.template@
    }

    /// The variables that were set, with their current values.
    pub closed spec fn bindings(&self) -> Bindings {
        Seq::new(self.variables@.len(), |i: int| (self.variables@[i].name@, self.variables@[i].value@))
    }

    /// The rendering of the template with its current variables.
    pub open spec fn rendering(&self) -> Seq<char> {
        render_with(self.template(), self.bindings())
    }

    /// Create a new prompt template, without variables.
    pub fn new(template: String) -> (s: Self)
        ensures
            s.template() == template@,
            s.bindings() == Seq::<(Seq<char>, Seq<char>)>::empty(),
            s.well_formed(),
    {
        let s = Self { template, variables: Vec::new() };
        assert(s.bindings() =~= Seq::<(Seq<char>, Seq<char>)>::empty());
        s
    }

    /// Set a variable in the template. A value set before for the same name
    /// is overwritten.
    pub fn set_variable(&mut self, name: &str, value: String)
        ensures
            final(self).template() == old(self).template(),
            final(self).bindings() == assign(old(self).bindings(), name@, value@),
            old(self).well_formed() ==> final(self).well_formed(),
    {
        proof {
            if self.well_formed() {
                lemma_assign_keeps_names_distinct(self.bindings(), name@, value@);
            }
        }
        let ghost before = self.bindings();
        let key = String::from_str(name);
        let mut i: usize = 0;
        while i < self.variables.len()
            invariant
                i <= self.variables.len(),
                key@ == name@,
                self.bindings() == before,
                *self == *old(self),
                forall|j: int| 0 <= j < i ==> (#[trigger] before[j]).0 != name@,
            decreases self.variables.len() - i,
        {
            if self.variables[i].name == key {
                proof {
                    lemma_assign_at(before, name@, value@, i as int);
                }
                let ghost new_value = value@;
                self.variables.set(i, Variable { name: key, value });
                proof {
                    assert(self.bindings() =~= before.update(i as int, (name@, new_value)));
                }
                return ;
            }
            i = i + 1;
        }
        proof {
            lemma_assign_new(before, name@, value@);
        }
        let ghost new_value = value@;
        self.variables.push(Variable { name: key, value });
        proof {
            assert(self.bindings() =~= before.push((name@, new_value)));
        }
    }

    /// Render the template with the current variables: every occurrence of
    /// the placeholder of a variable is replaced by its value; a placeholder
    /// without a variable stays. The template is not changed.
    pub fn render(&self) -> (result: String)
        ensures
            result@ == self.rendering(),
    {
        let mut result = self.template.clone();
        let mut i: usize = 0;
        assert(self.bindings().skip(0) =~= self.bindings());
        while i < self.variables.len()
            invariant
                i <= self.variables.len(),
                render_with(result@, self.bindings().skip(i as int)) == self.rendering(),
            decreases self.variables.len() - i,
        {
            let variable = &self.variables[i];
            let mut mark = String::from_str("{{");
            mark.append(variable.name.as_str());
            mark.append("}}");
            proof {
                let rest = self.bindings().skip(i as int);
                assert(rest[0] == (variable.name@, variable.value@));
                assert(rest.drop_first() =~= self.bindings().skip(i + 1));
            }
            result = replace_all(result.as_str(), mark.as_str(), variable.value.as_str());
            i = i + 1;
        }
        result
    }

    /// Get the default template.
    pub fn default_template() -> (template: String)
        ensures
            template@ == DEFAULT_TEMPLATE@,
    {
        String::from_str(DEFAULT_TEMPLATE)
    }
}

/// The text of the default template.
pub const DEFAULT_TEMPLATE: &'static str =
    "You are a helpful assistant that translates natural language requests into shell commands.\n\nYour task is to:\n1. Understand the user's intent\n2. Generate the appropriate shell command\n3. Provide a brief explanation if needed\n\nRules:\n- Only output the shell command, no additional text\n- Use standard Unix/Linux commands\n- Be safe and avoid destructive operations\n- Prefer simple, readable commands\n\nUser request: {request}\n\nShell command:";

impl Default for PromptTemplate {
    fn default() -> (s: Self)
        ensures
            s.template() == DEFAULT_TEMPLATE@,
            s.bindings() == Seq::<(Seq<char>, Seq<char>)>::empty(),
            s.well_formed(),
    {
        Self::new(Self::default_template())
    }
}

} // verus!
