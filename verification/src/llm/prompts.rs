//! Prompt templates: text with placeholders of the form `{name}`.

use crate::text::{push_char, replace_all, replaced, views};
use crate::text_map::TextMap;
use vstd::prelude::*;
use vstd::string::StringExecFns;

verus! {

/// Where a reading of a template stands: the variables found so far,
/// whether a placeholder is open, and the name read so far.
pub ghost struct Scan {
    pub found: Seq<Seq<char>>,
    pub open: bool,
    pub name: Seq<char>,
}

impl Scan {
    /// The reading before any character.
    pub open spec fn start() -> Scan {
        Scan { found: Seq::empty(), open: false, name: Seq::empty() }
    }

    /// The reading after one more character. An opening brace opens a
    /// placeholder; a closing brace closes it, and the name read so far
    /// counts as a variable if it is not empty; any other character
    /// lengthens the name while a placeholder is open.
    pub open spec fn step(self, c: char) -> Scan {
        if c == '{' {
            Scan { open: true, ..self }
        } else if c == '}' {
            if self.open && self.name.len() > 0 {
                Scan { found: self.found.push(self.name), open: false, name: Seq::empty() }
            } else {
                Scan { open: false, ..self }
            }
        } else if self.open {
            Scan { name: self.name.push(c), ..self }
        } else {
            self
        }
    }

    /// The reading after all of `text`.
    pub open spec fn of(text: Seq<char>) -> Scan
        decreases text.len(),
    {
        if text.len() == 0 {
            Scan::start()
        } else {
            Scan::of(text.drop_last()).step(text.last())
        }
    }
}

/// The variables of a template, in the order of their placeholders.
pub open spec fn variables_of(template: Seq<char>) -> Seq<Seq<char>> {
    Scan::of(template).found
}

/// The placeholder of a variable: its name in braces.
pub open spec fn placeholder(name: Seq<char>) -> Seq<char> {
    "{"@ + name + "}"@
}

/// The template with the placeholder of each of `names` replaced by its
/// value, one variable after the other.
pub open spec fn filled(
    template: Seq<char>,
    names: Seq<Seq<char>>,
    values: Map<Seq<char>, Seq<char>>,
) -> Seq<char>
    decreases names.len(),
{
    if names.len() == 0 {
        template
    } else {
        replaced(
            filled(template, names.drop_last(), values),
            placeholder(names.last()),
            values[names.last()],
        )
    }
}

/// Whether `i` is the first of `names` that has no value.
pub open spec fn first_missing(
    names: Seq<Seq<char>>,
    values: Map<Seq<char>, Seq<char>>,
    i: int,
) -> bool {
    &&& 0 <= i < names.len()
    &&& !values.contains_key(names[i])
    &&& forall|j: int| 0 <= j < i ==> values.contains_key(#[trigger] names[j])
}

/// The message for a variable without a value.
pub open spec fn missing_variable(name: Seq<char>) -> Seq<char> {
    "Missing variable: "@ + name
}

/// The message for a template that is not registered.
pub open spec fn missing_template(name: Seq<char>) -> Seq<char> {
    "Template not found: "@ + name
}

/// A named template with the variables that its text holds.
#[derive(Debug)]
pub struct PromptTemplate {
    /// Its name.
    pub name: String,
    /// Its text.
    pub template: String,
    /// The variables of the text, in the order of their placeholders.
    pub variables: Vec<String>,
}

/// The mathematical content of a `PromptTemplate`.
pub ghost struct TemplateView {
    pub name: Seq<char>,
    pub template: Seq<char>,
    pub variables: Seq<Seq<char>>,
}

impl TemplateView {
    /// The template called `name` with the text `template`.
    pub open spec fn made(name: Seq<char>, template: Seq<char>) -> TemplateView {
        TemplateView { name, template, variables: variables_of(template) }
    }
}

impl View for PromptTemplate {
    type V = TemplateView;

    open spec fn view(&self) -> TemplateView {
        TemplateView {
            name: self.name@,
            template: self.template@,
            variables: views(self.variables@),
        }
    }
}

impl Clone for PromptTemplate {
    fn clone(&self) -> (copy: Self)
        ensures
            copy@ == self@,
    {
        let mut variables: Vec<String> = Vec::new();
        let mut i: usize = 0;
        while i < self.variables.len()
            invariant
                0 <= i <= self.variables@.len(),
                variables@.len() == i,
                forall|j: int| 0 <= j < i ==> (#[trigger] variables@[j])@ == self.variables@[j]@,
            decreases self.variables@.len() - i,
        {
            variables.push(self.variables[i].clone());
            i += 1;
        }
        proof {
            assert(views(variables@) =~= views(self.variables@));
        }
        PromptTemplate { name: self.name.clone(), template: self.template.clone(), variables }
    }
}

impl PromptTemplate {
    /// The template called `name` with the text `template`.
    pub fn new(name: String, template: String) -> (made: Self)
        ensures
            made@ == TemplateView::made(name@, template@),
    {
        let variables = Self::extract_variables(template.as_str());
        PromptTemplate { name, template, variables }
    }

    /// The variables of `template`, in the order of their placeholders.
    pub fn extract_variables(template: &str) -> (vars: Vec<String>)
        ensures
            views(vars@) == variables_of(template@),
    {
        let mut vars: Vec<String> = Vec::new();
        let mut in_var = false;
        let mut current_var = String::new();
        proof {
            assert(template@.take(0) =~= Seq::<char>::empty());
            assert(views(vars@) =~= Seq::<Seq<char>>::empty());
        }
        for ch in it: template.chars()
            invariant
                it.seq() == template@,
                views(vars@) == Scan::of(template@.take(it.index() as int)).found,
                in_var == Scan::of(template@.take(it.index() as int)).open,
                current_var@ == Scan::of(template@.take(it.index() as int)).name,
        {
            let ghost i = it.index() as int;
            let ghost shown = views(vars@);
            proof {
                assert(template@.take(i + 1).drop_last() =~= template@.take(i));
                assert(template@.take(i + 1).last() == ch);
            }
            if ch == '{' {
                in_var = true;
            } else if ch == '}' {
                if in_var && !current_var.as_str().is_empty() {
                    let ghost name = current_var@;
                    vars.push(current_var);
                    current_var = String::new();
                    proof {
                        assert(views(vars@) =~= shown.push(name));
                    }
                }
                in_var = false;
            } else if in_var {
                push_char(&mut current_var, ch);
            }
        }
        proof {
            assert(template@.take(template@.len() as int) =~= template@);
        }
        vars
    }

    /// The text with each placeholder replaced by the value of its
    /// variable. The first variable without a value is reported.
    pub fn render(&self, variables: &TextMap<String>) -> (out: std::result::Result<String, String>)
        requires
            variables.wf(),
        ensures
            match out {
                Ok(text) => {
                    &&& forall|j: int|
                        0 <= j < self@.variables.len() ==> variables@.contains_key(
                            #[trigger] self@.variables[j],
                        )
                    &&& text@ == filled(self@.template, self@.variables, variables@)
                },
                Err(message) => exists|i: int|
                    first_missing(self@.variables, variables@, i) && message@ == missing_variable(
                        #[trigger] self@.variables[i],
                    ),
            },
    {
        let mut result = self.template.clone();
        let ghost names = views(self.variables@);
        let mut i: usize = 0;
        proof {
            assert(names.take(0) =~= Seq::<Seq<char>>::empty());
        }
        while i < self.variables.len()
            invariant
                0 <= i <= self.variables@.len(),
                variables.wf(),
                names == views(self.variables@),
                forall|j: int| 0 <= j < i ==> variables@.contains_key(#[trigger] names[j]),
                result@ == filled(self.template@, names.take(i as int), variables@),
            decreases self.variables@.len() - i,
        {
            let var = &self.variables[i];
            proof {
                assert(names[i as int] == var@);
                assert(names.take(i + 1).drop_last() =~= names.take(i as int));
                assert(names.take(i + 1).last() == var@);
            }
            match variables.get(var.as_str()) {
                Some(value) => {
                    let pattern = String::from_str("{").concat(var.as_str()).concat("}");
                    result = replace_all(result.as_str(), pattern.as_str(), value.as_str());
                },
                None => {
                    let message = String::from_str("Missing variable: ").concat(var.as_str());
                    proof {
                        assert(first_missing(self@.variables, variables@, i as int));
                        assert(message@ == missing_variable(self@.variables[i as int]));
                    }
                    return Err(message);
                },
            }
            i += 1;
        }
        proof {
            assert(names.take(i as int) =~= names);
        }
        Ok(result)
    }
}

/// The templates by name.
#[derive(Debug)]
pub struct PromptManager {
    templates: TextMap<PromptTemplate>,
}

/// The templates that every manager starts with.
pub open spec fn default_templates() -> Map<Seq<char>, TemplateView> {
    Map::<Seq<char>, TemplateView>::empty().insert(
        "extract_facts"@,
        TemplateView::made(
            "extract_facts"@,
            "Extract key facts from the following conversation:\n\n{conversation}\n\nFacts:"@,
        ),
    ).insert(
        "generate_insights"@,
        TemplateView::made(
            "generate_insights"@,
            "Based on the following facts about the user:\n\n{facts}\n\nGenerate insights about their preferences and behavior:\n\nInsights:"@,
        ),
    ).insert(
        "summarize_memories"@,
        TemplateView::made(
            "summarize_memories"@,
            "Summarize the following memories into a concise profile:\n\n{memories}\n\nSummary:"@,
        ),
    ).insert(
        "answer_with_context"@,
        TemplateView::made(
            "answer_with_context"@,
            "Answer the following question based on the provided context:\n\nContext:\n{context}\n\nQuestion: {question}\n\nAnswer:"@,
        ),
    ).insert(
        "classify_memory"@,
        TemplateView::made(
            "classify_memory"@,
            "Classify the following text into one of these categories: fact, preference, insight, goal, or other.\n\nText: {text}\n\nCategory:"@,
        ),
    )
}

impl View for PromptManager {
    type V = Map<Seq<char>, TemplateView>;

    closed spec fn view(&self) -> Map<Seq<char>, TemplateView> {
        self.templates@
    }
}

impl PromptManager {
    /// What every manager upholds.
    pub closed spec fn wf(&self) -> bool {
        self.templates.wf()
    }

    /// The names of the templates, in the order in which they were first
    /// registered.
    pub closed spec fn names(&self) -> Seq<Seq<char>> {
        self.templates.keys()
    }

    /// The names are those of the registered templates, each once.
    pub proof fn lemma_names(&self)
        requires
            self.wf(),
        ensures
            self.names().no_duplicates(),
            self.names().to_set() == self@.dom(),
            self@.dom().finite(),
            self@.dom().len() == self.names().len(),
    {
        self.templates.lemma_view();
    }

    /// A manager with the default templates.
    pub fn new() -> (manager: Self)
        ensures
            manager.wf(),
            manager@ == default_templates(),
    {
        let mut manager = PromptManager { templates: TextMap::new() };
        manager.load_defaults();
        manager
    }

    /// Register the default templates.
    pub fn load_defaults(&mut self)
        requires
            old(self).wf(),
        ensures
            final(self).wf(),
            final(self)@ == old(self)@.union_prefer_right(default_templates()),
    {
        let ghost before = self@;
        self.register(
            PromptTemplate::new(
                "extract_facts".to_string(),
                "Extract key facts from the following conversation:\n\n{conversation}\n\nFacts:".to_string(),
            ),
        );
        self.register(
            PromptTemplate::new(
                "generate_insights".to_string(),
                "Based on the following facts about the user:\n\n{facts}\n\nGenerate insights about their preferences and behavior:\n\nInsights:".to_string(),
            ),
        );
        self.register(
            PromptTemplate::new(
                "summarize_memories".to_string(),
                "Summarize the following memories into a concise profile:\n\n{memories}\n\nSummary:".to_string(),
            ),
        );
        self.register(
            PromptTemplate::new(
                "answer_with_context".to_string(),
                "Answer the following question based on the provided context:\n\nContext:\n{context}\n\nQuestion: {question}\n\nAnswer:".to_string(),
            ),
        );
        self.register(
            PromptTemplate::new(
                "classify_memory".to_string(),
                "Classify the following text into one of these categories: fact, preference, insight, goal, or other.\n\nText: {text}\n\nCategory:".to_string(),
            ),
        );
        proof {
            assert(self@ =~= before.union_prefer_right(default_templates()));
        }
    }

    /// Register `template` under its name, in place of one of that name.
    pub fn register(&mut self, template: PromptTemplate)
        requires
            old(self).wf(),
        ensures
            final(self).wf(),
            final(self)@ == old(self)@.insert(template@.name, template@),
    {
        self.templates.insert(template.name.clone(), template);
    }

    /// The template called `name`, if there is one.
    pub fn get(&self, name: &str) -> (found: Option<&PromptTemplate>)
        requires
            self.wf(),
        ensures
            match found {
                Some(t) => self@.contains_key(name@) && t@ == self@[name@],
                None => !self@.contains_key(name@),
            },
    {
        self.templates.get(name)
    }

    /// The text of the template called `name` with its placeholders
    /// replaced. A template that is not there is reported, and so is the
    /// first variable without a value.
    pub fn render(&self, name: &str, variables: &TextMap<String>) -> (out: std::result::Result<
        String,
        String,
    >)
        requires
            self.wf(),
            variables.wf(),
        ensures
            match out {
                Ok(text) => {
                    &&& self@.contains_key(name@)
                    &&& forall|j: int|
                        0 <= j < self@[name@].variables.len() ==> variables@.contains_key(
                            #[trigger] self@[name@].variables[j],
                        )
                    &&& text@ == filled(self@[name@].template, self@[name@].variables, variables@)
                },
                Err(message) => if self@.contains_key(name@) {
                    exists|i: int|
                        first_missing(self@[name@].variables, variables@, i) && message@
                            == missing_variable(#[trigger] self@[name@].variables[i])
                } else {
                    message@ == missing_template(name@)
                },
            },
    {
        match self.get(name) {
            Some(template) => template.render(variables),
            None => Err(String::from_str("Template not found: ").concat(name)),
        }
    }

    /// The names of the templates, in the order in which they were first
    /// registered.
    pub fn list_templates(&self) -> (names: Vec<&str>)
        requires
            self.wf(),
        ensures
            names@.len() == self.names().len(),
            forall|i: int| 0 <= i < names@.len() ==> (#[trigger] names@[i])@ == self.names()[i],
    {
        let mut names: Vec<&str> = Vec::new();
        let mut i: usize = 0;
        let n = self.templates.len();
        while i < n
            invariant
                self.templates.wf(),
                n == self.templates.keys().len(),
                0 <= i <= n,
                names@.len() == i,
                forall|j: int| 0 <= j < i ==> (#[trigger] names@[j])@ == self.templates.keys()[j],
            decreases n - i,
        {
            names.push(self.templates.key_at(i).as_str());
            i += 1;
        }
        names
    }

    /// Number of templates.
    pub fn template_count(&self) -> (n: usize)
        requires
            self.wf(),
        ensures
            n == self@.dom().len(),
            n == self.names().len(),
    {
        self.templates.len()
    }
}

impl Default for PromptManager {
    /// A manager with the default templates.
    fn default() -> (manager: Self)
        ensures
            manager.wf(),
            manager@ == default_templates(),
    {
        PromptManager::new()
    }
}

} // verus!
