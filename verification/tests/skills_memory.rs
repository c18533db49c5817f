use arcan::event_map::{EventPayload, MemoryScope};
use arcan::memory_projection::MemoryProjection;
use arcan::memory_tools::{parse_scope, MemoryCommitTool, MemoryProposeTool, MemoryQueryTool};
use arcan::skills::{is_skill_file, skill_root_dir, split_frontmatter, validate_metadata, LoadedSkill, SkillError, SkillMetadata, SkillRegistry};

fn meta(name: &str, description: &str) -> SkillMetadata {
    SkillMetadata {
        name: name.to_string(),
        description: description.to_string(),
        license: None,
        compatibility: None,
        tags: Vec::new(),
        allowed_tools: None,
        user_invocable: None,
        disable_model_invocation: None,
        metadata: Vec::new(),
    }
}

fn skill(m: SkillMetadata) -> LoadedSkill {
    LoadedSkill { meta: m, body: "Body.".to_string(), root_dir: ".".to_string() }
}

#[test]
fn parse_full_skill_md() {
    let content = "---\nname: commit-helper\ndescription: Helps create well-structured git commits\nlicense: MIT\ntags:\n  - git\n  - workflow\nallowed_tools:\n  - bash\n  - read_file\nuser_invocable: true\n---\n# Commit Helper\n\nWhen the user asks to commit, follow these steps:\n1. Run `git status` to see changes\n2. Draft a commit message\n3. Ask for confirmation\n";
    let (yaml, body) = match split_frontmatter(content) {
        Ok(parts) => parts,
        Err(_) => panic!("front matter expected"),
    };
    assert!(yaml.starts_with("name: commit-helper"));
    assert!(yaml.ends_with("user_invocable: true"));
    assert!(body.contains("# Commit Helper"));
    assert!(body.contains("Run `git status`"));
    let mut m = meta("commit-helper", "Helps create well-structured git commits");
    m.license = Some("MIT".to_string());
    assert!(validate_metadata(&m).is_ok());
}

#[test]
fn parse_minimal_skill_md() {
    let content = "---\nname: simple\ndescription: A simple skill\n---\nJust do the thing.\n";
    let (yaml, body) = match split_frontmatter(content) {
        Ok(parts) => parts,
        Err(_) => panic!("front matter expected"),
    };
    assert_eq!(yaml, "name: simple\ndescription: A simple skill");
    assert_eq!(body, "Just do the thing.");
    assert!(validate_metadata(&meta("simple", "A simple skill")).is_ok());
}

#[test]
fn parse_missing_frontmatter_fails() {
    let content = "# No frontmatter\nJust text.";
    assert!(matches!(split_frontmatter(content), Err(SkillError::MissingFrontmatter)));
}

#[test]
fn unclosed_frontmatter_fails() {
    assert!(matches!(split_frontmatter("---\nname: x\n"), Err(SkillError::MissingFrontmatter)));
}

#[test]
fn frontmatter_without_body_gives_empty_body() {
    match split_frontmatter("  ---\nname: x\n---  \n") {
        Ok((yaml, body)) => {
            assert_eq!(yaml, "name: x");
            assert_eq!(body, "");
        }
        Err(_) => panic!("front matter expected"),
    }
}

#[test]
fn parse_empty_name_fails() {
    let err = validate_metadata(&meta("", "Empty name")).unwrap_err();
    assert!(err.to_string().contains("name"));
    assert_eq!(err.to_string(), "missing required field: name");
}

#[test]
fn empty_description_fails() {
    let err = validate_metadata(&meta("x", "")).unwrap_err();
    assert_eq!(err.to_string(), "missing required field: description");
}

#[test]
fn skill_error_messages() {
    assert_eq!(
        SkillError::MissingFrontmatter.to_string(),
        "SKILL.md missing YAML frontmatter (must start and end with ---)"
    );
    assert_eq!(SkillError::YamlParse("bad".to_string()).to_string(), "YAML parse error: bad");
}

#[test]
fn skill_file_names_ignore_case() {
    assert!(is_skill_file("SKILL.md"));
    assert!(is_skill_file("skill.MD"));
    assert!(!is_skill_file("SKILL.txt"));
    assert!(!is_skill_file("SKILLS.md"));
}

#[test]
fn skill_root_is_parent_directory() {
    assert_eq!(skill_root_dir("skills/a/SKILL.md"), "skills/a");
}

#[test]
fn system_prompt_catalog_formatting() {
    let mut reg = SkillRegistry::new();
    assert_eq!(reg.system_prompt_catalog(), "");
    let mut alpha = meta("alpha", "Alpha skill");
    alpha.user_invocable = Some(true);
    reg.insert(skill(meta("beta", "Beta skill")));
    reg.insert(skill(alpha));
    let catalog = reg.system_prompt_catalog();
    assert!(catalog.starts_with("Available skills:"));
    assert!(catalog.contains("alpha: Alpha skill [user-invocable]"));
    assert!(catalog.contains("beta: Beta skill"));
    assert!(!catalog.contains("beta: Beta skill [user-invocable]"));
    assert_eq!(catalog, "Available skills:\n- alpha: Alpha skill [user-invocable]\n- beta: Beta skill");
}

#[test]
fn allowed_tools_filtering() {
    let mut reg = SkillRegistry::new();
    let mut m = meta("restricted", "Restricted skill");
    m.allowed_tools = Some(vec!["read_file".to_string(), "grep".to_string()]);
    reg.insert(skill(m));
    let tools = reg.allowed_tools("restricted").unwrap();
    assert_eq!(tools, &["read_file".to_string(), "grep".to_string()]);
    assert!(reg.allowed_tools("nonexistent").is_none());
}

#[test]
fn skill_names_returns_all() {
    let mut reg = SkillRegistry::new();
    for name in ["ccc", "aaa", "bbb"] {
        reg.insert(skill(meta(name, &format!("Skill {name}"))));
    }
    assert_eq!(reg.count(), 3);
    assert_eq!(reg.skill_names(), vec!["aaa", "bbb", "ccc"]);
}

#[test]
fn later_skill_replaces_same_name() {
    let mut reg = SkillRegistry::new();
    reg.insert(skill(meta("a", "first")));
    reg.insert(skill(meta("a", "second")));
    assert_eq!(reg.count(), 1);
    assert_eq!(reg.activate("a").unwrap().meta.description, "second");
    assert!(reg.activate("b").is_none());
}

fn obs_event(scope: MemoryScope, r: &str) -> EventPayload {
    EventPayload::ObservationAppended { scope, observation_ref: r.into(), source_run_id: None }
}

#[test]
fn query_returns_observations() {
    let mut proj = MemoryProjection::new();
    proj.on_event(&obs_event(MemoryScope::Session, "obs1"));
    let tool = MemoryQueryTool::new();
    let out = match tool.execute(r#"{"scope": "session"}"#, &proj) {
        Ok(out) => out,
        Err(_) => panic!("query should succeed"),
    };
    assert_eq!(out.entries.len(), 1);
    assert_eq!(out.observation_summary, "1 observations");
}

#[test]
fn query_limit_caps_entries() {
    let mut proj = MemoryProjection::new();
    for r in ["a", "b", "c"] {
        proj.on_event(&obs_event(MemoryScope::User, r));
    }
    let tool = MemoryQueryTool::new();
    let out = match tool.execute(r#"{"scope": "user", "limit": 2}"#, &proj) {
        Ok(out) => out,
        Err(_) => panic!("query should succeed"),
    };
    assert_eq!(out.entries, vec!["a", "b"]);
    assert_eq!(out.observation_summary, "3 observations");
}

#[test]
fn query_empty_scope_returns_empty() {
    let proj = MemoryProjection::new();
    let tool = MemoryQueryTool::new();
    let out = match tool.execute(r#"{"scope": "agent"}"#, &proj) {
        Ok(out) => out,
        Err(_) => panic!("query should succeed"),
    };
    assert!(out.entries.is_empty());
    assert!(out.reflection.is_none());
}

#[test]
fn query_validates_scope() {
    let proj = MemoryProjection::new();
    let tool = MemoryQueryTool::new();
    match tool.execute(r#"{"scope": "invalid"}"#, &proj) {
        Err(e) => {
            assert_eq!(e.tool_name, "memory");
            assert_eq!(e.message, "invalid scope: invalid");
        }
        Ok(_) => panic!("invalid scope accepted"),
    }
    match tool.execute("{}", &proj) {
        Err(e) => assert_eq!(e.message, "missing 'scope' field"),
        Ok(_) => panic!("missing scope accepted"),
    }
}

#[test]
fn scopes_parse_by_name() {
    assert!(matches!(parse_scope("org"), Ok(MemoryScope::Org)));
    assert!(matches!(parse_scope("user"), Ok(MemoryScope::User)));
    assert!(parse_scope("Org").is_err());
}

fn fnv(bytes: &[u8]) -> u64 {
    let mut h: u64 = 0xcbf29ce484222325;
    for b in bytes {
        h ^= *b as u64;
        h = h.wrapping_mul(0x100000001b3);
    }
    h
}

#[test]
fn propose_creates_event() {
    let tool = MemoryProposeTool::with_session("test-session", "main");
    let input = r#"{"scope": "session", "entries": [{"content": "User likes dark mode"}]}"#;
    let proposal = match tool.check(input) {
        Ok(p) => p,
        Err(_) => panic!("proposal should be accepted"),
    };
    assert_eq!(proposal.entry_count, 1);
    let expected = format!("{:x}", fnv(r#"[{"content":"User likes dark mode"}]"#.as_bytes()));
    assert_eq!(proposal.entries_ref, expected);
    let (env, out) = tool.proposal_event("test-session", "run-1", &proposal, "PROP1", "EV1", 4, 77);
    assert_eq!(env.seq, 5);
    assert_eq!(env.branch_id, "main");
    assert_eq!(env.run_id.as_deref(), Some("run-1"));
    match env.payload {
        EventPayload::MemoryProposed { scope, proposal_id, entries_ref, source_run_id } => {
            assert!(matches!(scope, MemoryScope::Session));
            assert_eq!(proposal_id, "PROP1");
            assert_eq!(entries_ref, expected);
            assert_eq!(source_run_id.as_deref(), Some("run-1"));
        }
        _ => panic!("wrong payload"),
    }
    assert_eq!(out.proposal_id, "PROP1");
    assert_eq!(out.entry_count, 1);
}

#[test]
fn propose_validates_entries() {
    let tool = MemoryProposeTool::new();
    match tool.check(r#"{"scope": "session", "entries": []}"#) {
        Err(e) => assert_eq!(e.message, "entries must not be empty"),
        Ok(_) => panic!("empty entries accepted"),
    }
    match tool.check(r#"{"scope": "session"}"#) {
        Err(e) => assert_eq!(e.message, "missing or invalid 'entries' field"),
        Ok(_) => panic!("missing entries accepted"),
    }
    match tool.check(r#"{"scope": "session", "entries": [{"text": "x"}]}"#) {
        Err(e) => assert_eq!(e.message, "each entry must have a 'content' string field"),
        Ok(_) => panic!("entry without content accepted"),
    }
}

#[test]
fn propose_returns_proposal_id() {
    let tool = MemoryProposeTool::new();
    let proposal = match tool.check(r#"{"scope": "user", "entries": [{"content": "test entry"}]}"#) {
        Ok(p) => p,
        Err(_) => panic!("proposal should be accepted"),
    };
    assert!(matches!(proposal.scope, MemoryScope::User));
    let (_, out) = tool.proposal_event("s", "r", &proposal, "01HXYZ", "E", 0, 1);
    assert!(!out.proposal_id.is_empty());
}

#[test]
fn commit_creates_committed_event() {
    let tool = MemoryCommitTool::with_session("test-session", "main");
    let c = match tool.check(r#"{"proposal_id": "PROP001"}"#) {
        Ok(c) => c,
        Err(_) => panic!("commit should be accepted"),
    };
    assert_eq!(c.committed_ref, "committed-PROP001");
    assert!(c.supersedes.is_none());
    let (env, out) = tool.commit_event("test-session", &c, "MEM1", "EV", 9, 5);
    assert_eq!(env.seq, 10);
    assert!(env.run_id.is_none());
    match env.payload {
        EventPayload::MemoryCommitted { scope, memory_id, committed_ref, supersedes } => {
            assert!(matches!(scope, MemoryScope::Session));
            assert_eq!(memory_id, "MEM1");
            assert_eq!(committed_ref, "committed-PROP001");
            assert!(supersedes.is_none());
        }
        _ => panic!("wrong payload"),
    }
    assert_eq!(out.memory_id, "MEM1");
    assert!(out.committed);
}

#[test]
fn commit_with_supersedes() {
    let tool = MemoryCommitTool::new();
    let c = match tool.check(r#"{"proposal_id": "PROP002", "supersedes": "MEM_OLD"}"#) {
        Ok(c) => c,
        Err(_) => panic!("commit should be accepted"),
    };
    assert_eq!(c.supersedes.as_deref(), Some("MEM_OLD"));
    let (env, out) = tool.commit_event("s", &c, "MEM2", "EV", 0, 0);
    match env.payload {
        EventPayload::MemoryCommitted { supersedes, .. } => assert_eq!(supersedes.as_deref(), Some("MEM_OLD")),
        _ => panic!("wrong payload"),
    }
    assert!(out.committed);
}

#[test]
fn invalid_proposal_rejected() {
    let tool = MemoryCommitTool::new();
    match tool.check(r#"{"proposal_id": ""}"#) {
        Err(e) => assert_eq!(e.message, "proposal_id must not be empty"),
        Ok(_) => panic!("empty proposal accepted"),
    }
    match tool.check("{}") {
        Err(e) => assert_eq!(e.message, "missing 'proposal_id' field"),
        Ok(_) => panic!("missing proposal accepted"),
    }
}

#[test]
fn tool_definitions_have_correct_schemas() {
    let q_def = MemoryQueryTool::new().definition();
    assert_eq!(q_def.name, "memory_query");
    let q: serde_json::Value = serde_json::from_str(&q_def.input_schema).unwrap();
    assert!(q["properties"]["scope"].is_object());

    let p_def = MemoryProposeTool::new().definition();
    assert_eq!(p_def.name, "memory_propose");
    let p: serde_json::Value = serde_json::from_str(&p_def.input_schema).unwrap();
    assert!(p["properties"]["entries"].is_object());

    let c_def = MemoryCommitTool::new().definition();
    assert_eq!(c_def.name, "memory_commit");
    let c: serde_json::Value = serde_json::from_str(&c_def.input_schema).unwrap();
    assert!(c["properties"]["proposal_id"].is_object());
    assert_eq!(c_def.category.as_deref(), Some("memory"));
    assert_eq!(c_def.tags, vec!["memory"]);
}
