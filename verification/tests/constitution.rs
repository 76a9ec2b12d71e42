use nedb_engine::constitution as engine;
use nedb_engine::Db;
use nesql::cmd::constitution::{
    build_report, claim, claim_with, render_human, run, verdict_of, ClientClaim, Compatibility,
    Constitution, FormatVersion, Invariant,
};
use nesql::out::Exit;

fn sample_constitution(grammar: &str) -> Constitution {
    Constitution {
        engine_version: "9.9.9",
        formats: vec![
            FormatVersion { name: "state_root", version: 1 },
            FormatVersion { name: "node", version: 2 },
        ],
        capabilities: vec!["nql.from", "wire.http"],
        invariants: vec![Invariant { id: "INV-A", statement: "A holds." }],
        grammar_digest: grammar.to_string(),
    }
}

#[test]
fn verdict_of_compatible() {
    let (exit, verdict, detail) = verdict_of(&Compatibility::Compatible);
    assert_eq!(exit, Exit::Success);
    assert_eq!(verdict, "compatible");
    assert!(detail.is_empty());
}

#[test]
fn verdict_of_gaps_lists_engine_side_first() {
    let answer = Compatibility::CompatibleWithGaps {
        client_missing: vec!["wire.http".to_string(), "graph.edges".to_string()],
        engine_missing: vec!["nql_grammar_surface".to_string()],
    };
    let (exit, verdict, detail) = verdict_of(&answer);
    assert_eq!(exit, Exit::Success);
    assert_eq!(verdict, "compatible with gaps");
    assert_eq!(
        detail,
        vec![
            "engine does not advertise: nql_grammar_surface".to_string(),
            "this build did not ask for: wire.http".to_string(),
            "this build did not ask for: graph.edges".to_string(),
        ]
    );
}

#[test]
fn verdict_of_refusal_is_unsupported_with_its_reasons() {
    let answer = Compatibility::Incompatible { reasons: vec!["no such format".to_string()] };
    let (exit, verdict, detail) = verdict_of(&answer);
    assert_eq!(exit, Exit::Unsupported);
    assert_eq!(verdict, "INCOMPATIBLE");
    assert_eq!(detail, vec!["no such format".to_string()]);
}

#[test]
fn human_text_when_grammars_agree() {
    let c = sample_constitution("g1");
    let detail = vec!["engine does not advertise: x".to_string()];
    let h = render_human(&c, "8.0.0", "compatible with gaps", &detail, "cd", &"g1".to_string(), "surf");
    let expected = "engine         9.9.9\n\
nesql          8.0.0\n\
verdict        compatible with gaps\n\
constitution   cd\n\
nql grammar    g1\n\
\x20              (agrees — same grammar this build compiled against)\n\
command surface surf\n\
\x20              (nesql's own verbs — NOT the NQL grammar, and deliberately not compared to it)\n\
\n\
\x20 · engine does not advertise: x\n\
\n\
formats        2\n\
\x20 state_root v1\n\
\x20 node v2\n\
\n\
invariants     1\n\
\x20 INV-A\n\
\x20   A holds.\n\
\n\
capabilities   2\n\
\x20 nql.from\n\
\x20 wire.http";
    assert_eq!(h, expected);
}

#[test]
fn human_text_when_grammars_differ_and_no_detail() {
    let c = sample_constitution("g1");
    let h = render_human(&c, "8.0.0", "compatible", &Vec::new(), "cd", &"g2".to_string(), "surf");
    assert!(h.contains(
        "nql grammar    g1\n               (this build compiled against a different NQL grammar — `nql.*` capabilities cannot be promised)\n"
    ));
    assert!(h.contains("compared to it)\n\nformats        2\n"));
    assert!(!h.contains(" · "));
}

#[test]
fn human_text_with_nothing_listed() {
    let c = Constitution {
        engine_version: "0",
        formats: Vec::new(),
        capabilities: Vec::new(),
        invariants: Vec::new(),
        grammar_digest: String::new(),
    };
    let h = render_human(&c, "v", "compatible", &Vec::new(), "", &String::new(), "");
    assert!(h.ends_with("\nformats        0\n\ninvariants     0\n\ncapabilities   0\n  "));
}

#[test]
fn claim_is_what_this_build_requires() {
    let c: ClientClaim = claim();
    assert_eq!(c.client_name, "nesql");
    assert_eq!(c.client_version, "8.0.0");
    assert_eq!(
        c.required_capabilities,
        vec![
            "state_root.compute",
            "state_root.as_of",
            "root.persist",
            "root.verify.three_state",
            "history.as_of",
            "history.floor",
            "collections.registry",
            "replication.since",
            "nql.from",
        ]
    );
    let formats: Vec<(&str, u32)> = c.required_formats.iter().map(|f| (f.name, f.version)).collect();
    assert_eq!(formats, vec![("state_root", 1), ("root_record", 1), ("collection_registry", 1)]);
}

#[test]
fn claim_carries_the_engine_grammar_digest() {
    let c = claim();
    assert_eq!(c.grammar_digest, engine::grammar_digest());
    assert_eq!(c.grammar_digest.len(), 64);
}

#[test]
fn run_against_the_linked_engine() {
    let db = Db::in_memory();
    let report = run(&db, "surface-digest");
    let c = engine::constitution();

    // The constitution is the engine's, field for field.
    assert_eq!(report.constitution.engine_version, "12.15.16");
    assert_eq!(report.constitution.formats.len(), 6);
    assert_eq!(report.constitution.capabilities.len(), 36);
    assert_eq!(report.constitution.invariants.len(), 13);
    assert_eq!(report.constitution.invariants[0].id, "INV-HISTORY-APPEND-ONLY");
    assert_eq!(report.constitution.engine_version, c.engine_version);
    assert_eq!(report.constitution.capabilities, c.capabilities);
    assert_eq!(report.constitution.grammar_digest, c.grammar_digest);
    let formats: Vec<(&str, u32)> =
        report.constitution.formats.iter().map(|f| (f.name, f.version)).collect();
    let engine_formats: Vec<(&str, u32)> = c.formats.iter().map(|f| (f.name, f.version)).collect();
    assert_eq!(formats, engine_formats);
    let invariants: Vec<(&str, &str)> =
        report.constitution.invariants.iter().map(|i| (i.id, i.statement)).collect();
    let engine_invariants: Vec<(&str, &str)> = c.invariants.iter().map(|i| (i.id, i.statement)).collect();
    assert_eq!(invariants, engine_invariants);
    assert_eq!(report.constitution_digest, engine::digest());

    // The claim carries the engine's own NQL grammar digest, never the
    // command-surface digest.
    assert_eq!(report.client.grammar_digest, report.constitution.grammar_digest);
    assert_eq!(report.client.grammar_digest, engine::grammar_digest());
    assert_ne!(report.client.grammar_digest, "surface-digest");

    // Everything this build requires is present, and the engine offers more:
    // a gap, which is not an error.
    assert_eq!(report.exit, Exit::Success);
    assert_eq!(report.verdict, "compatible with gaps");
    match &report.compatibility {
        Compatibility::CompatibleWithGaps { client_missing, engine_missing } => {
            assert!(engine_missing.is_empty());
            assert!(client_missing.iter().any(|m| m == "wire.http"));
            assert_eq!(report.detail.len(), client_missing.len());
        }
        other => panic!("unexpected answer {:?}", other),
    }
    assert!(report.detail.iter().all(|d| d.starts_with("this build did not ask for: ")));

    assert!(report.human.starts_with("engine         "));
    assert!(report.human.contains("\nnesql          8.0.0\nverdict        compatible with gaps\n"));
    assert!(report.human.contains("(agrees — same grammar this build compiled against)"));
    assert!(report.human.contains("command surface surface-digest\n"));
    assert!(report.human.contains("  · this build did not ask for: wire.http\n"));
}

#[test]
fn claim_with_carries_the_given_digest() {
    let c = claim_with("abc".to_string());
    assert_eq!(c.grammar_digest, "abc");
    assert_eq!(c.client_name, "nesql");
    assert_eq!(c.required_capabilities.len(), 9);
    assert_eq!(c.required_formats.len(), 3);
}

#[test]
fn build_report_from_given_answers() {
    let c = sample_constitution("g1");
    let client = claim_with("g2".to_string());
    let answer = Compatibility::Incompatible { reasons: vec!["capability \"nql.from\" differs".to_string()] };
    let r = build_report(c, "cd".to_string(), client, answer, "surf");
    assert_eq!(r.exit, Exit::Unsupported);
    assert_eq!(r.verdict, "INCOMPATIBLE");
    assert_eq!(r.detail, vec!["capability \"nql.from\" differs".to_string()]);
    assert_eq!(r.constitution_digest, "cd");
    assert_eq!(r.client.grammar_digest, "g2");
    assert!(r.human.starts_with(
        "engine         9.9.9\nnesql          8.0.0\nverdict        INCOMPATIBLE\nconstitution   cd\nnql grammar    g1\n"
    ));
    assert!(r.human.contains("different NQL grammar"));
    assert!(r.human.contains("\n\n  · capability \"nql.from\" differs\n"));
}

#[test]
fn two_runs_agree() {
    let a = run(&Db::in_memory(), "s");
    let b = run(&Db::in_memory(), "other");
    assert_eq!(a.exit, b.exit);
    assert_eq!(a.verdict, b.verdict);
    assert_eq!(a.detail, b.detail);
    assert_eq!(a.compatibility, b.compatibility);
    assert_eq!(a.human.replace("command surface other", "command surface s"), b.human.replace("command surface other", "command surface s"));
}
