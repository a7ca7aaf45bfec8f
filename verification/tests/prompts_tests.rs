use memory_rs::llm::prompts::{PromptManager, PromptTemplate};
use memory_rs::text_map::TextMap;

#[test]
fn test_extract_variables() {
    let template = "Hello {name}, you are {age} years old";
    let vars = PromptTemplate::extract_variables(template);
    assert_eq!(vars, vec!["name", "age"]);
}

#[test]
fn test_render_template() {
    let template =
        PromptTemplate::new("greeting".to_string(), "Hello {name}, welcome to {place}".to_string());

    let mut vars = TextMap::new();
    vars.insert("name".to_string(), "Alice".to_string());
    vars.insert("place".to_string(), "Rust".to_string());

    let result = template.render(&vars).unwrap();
    assert_eq!(result, "Hello Alice, welcome to Rust");
}

#[test]
fn test_render_missing_variable() {
    let template = PromptTemplate::new("greeting".to_string(), "Hello {name}".to_string());

    let vars = TextMap::new();
    assert!(template.render(&vars).is_err());
}

#[test]
fn test_prompt_manager() {
    let manager = PromptManager::new();
    assert!(manager.template_count() > 0);
    assert!(manager.get("extract_facts").is_some());
}

#[test]
fn test_render_from_manager() {
    let manager = PromptManager::new();
    let mut vars = TextMap::new();
    vars.insert("conversation".to_string(), "User: I like coffee".to_string());

    let result = manager.render("extract_facts", &vars);
    assert!(result.is_ok());
}

#[test]
fn extract_variables_edge_cases() {
    assert_eq!(PromptTemplate::extract_variables(""), Vec::<String>::new());
    assert_eq!(PromptTemplate::extract_variables("no braces"), Vec::<String>::new());
    assert_eq!(PromptTemplate::extract_variables("{}"), Vec::<String>::new());
    assert_eq!(PromptTemplate::extract_variables("a}b{c"), Vec::<String>::new());
    assert_eq!(PromptTemplate::extract_variables("{a{b}"), vec!["ab"]);
    assert_eq!(PromptTemplate::extract_variables("{a}{a}"), vec!["a", "a"]);
    assert_eq!(PromptTemplate::extract_variables("{x} y} {z}"), vec!["x", "z"]);
    assert_eq!(PromptTemplate::extract_variables("{é}"), vec!["é"]);
}

#[test]
fn render_reports_the_first_missing_variable() {
    let template = PromptTemplate::new("t".to_string(), "{a} {b} {c}".to_string());
    let mut vars = TextMap::new();
    vars.insert("a".to_string(), "1".to_string());
    assert_eq!(template.render(&vars), Err("Missing variable: b".to_string()));
}

#[test]
fn render_replaces_every_occurrence() {
    let template = PromptTemplate::new("t".to_string(), "{a}-{a}-{b}".to_string());
    assert_eq!(template.name, "t");
    assert_eq!(template.variables, vec!["a", "a", "b"]);
    let mut vars = TextMap::new();
    vars.insert("a".to_string(), "x".to_string());
    vars.insert("b".to_string(), "{a}".to_string());
    assert_eq!(template.render(&vars), Ok("x-x-{a}".to_string()));
}

#[test]
fn manager_starts_with_five_templates() {
    let manager = PromptManager::default();
    assert_eq!(manager.template_count(), 5);
    assert_eq!(
        manager.list_templates(),
        vec![
            "extract_facts",
            "generate_insights",
            "summarize_memories",
            "answer_with_context",
            "classify_memory"
        ]
    );
    let template = manager.get("answer_with_context").unwrap();
    assert_eq!(template.variables, vec!["context", "question"]);
    assert!(manager.get("nothing").is_none());
}

#[test]
fn manager_renders_and_reports() {
    let mut manager = PromptManager::new();
    let mut vars = TextMap::new();
    vars.insert("conversation".to_string(), "User: I like coffee".to_string());
    assert_eq!(
        manager.render("extract_facts", &vars),
        Ok("Extract key facts from the following conversation:\n\nUser: I like coffee\n\nFacts:"
            .to_string())
    );
    assert_eq!(
        manager.render("nothing", &vars),
        Err("Template not found: nothing".to_string())
    );
    assert_eq!(
        manager.render("classify_memory", &vars),
        Err("Missing variable: text".to_string())
    );
    manager.register(PromptTemplate::new("extract_facts".to_string(), "short".to_string()));
    assert_eq!(manager.template_count(), 5);
    assert_eq!(manager.render("extract_facts", &vars), Ok("short".to_string()));
    manager.register(PromptTemplate::new("sixth".to_string(), "{x}".to_string()));
    assert_eq!(manager.template_count(), 6);
    manager.load_defaults();
    assert_eq!(manager.template_count(), 6);
    assert!(manager.render("extract_facts", &vars).unwrap().starts_with("Extract key facts"));
}
