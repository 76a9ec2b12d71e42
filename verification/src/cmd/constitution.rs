//! `nesql constitution` — what the engine guarantees, and whether this CLI and
//! that engine can actually work together.
//!
//! The check is CLI-against-ENGINE, deliberately: the claim is built from what
//! THIS build requires and handed to the ENGINE to judge. The engine answers
//! from its own constitution, and a capability this CLI needs but the engine
//! lacks is a refusal.
//!
//! The grammar digest sent in the claim is the NQL grammar digest of the
//! engine this build links, never the digest of the CLI's own command surface:
//! those hash different artifacts and could never be equal.

use vstd::prelude::*;

use nedb_engine::constitution as engine;
use nedb_engine::Db;

use crate::out::{Exit, Report};
use crate::text::{string_views, str_views, decimal, join, push_decimal, push_joined};

verus! {

// ── The engine's types, as this library holds them ──────────────────────

/// The engine's database handle; `run` takes one and does not read it.
#[verifier::external_type_specification]
#[verifier::external_body]
pub struct ExDb(Db);

/// A format, by name and integer version.
#[derive(Clone, Copy, Debug)]
pub struct FormatVersion {
    pub name: &'static str,
    pub version: u32,
}

/// A semantic promise of the engine, with a stable id.
#[derive(Clone, Copy, Debug)]
pub struct Invariant {
    pub id: &'static str,
    pub statement: &'static str,
}

/// Everything the engine guarantees, packaged for a client to check.
#[derive(Debug)]
pub struct Constitution {
    pub engine_version: &'static str,
    pub formats: Vec<FormatVersion>,
    pub capabilities: Vec<&'static str>,
    pub invariants: Vec<Invariant>,
    pub grammar_digest: String,
}

/// What a client says it needs of an engine.
#[derive(Debug)]
pub struct ClientClaim {
    pub client_name: String,
    pub client_version: String,
    /// The digest of the NQL grammar this client implements.
    pub grammar_digest: String,
    pub required_capabilities: Vec<String>,
    pub required_formats: Vec<FormatVersion>,
}

/// The engine's answer to a claim.
#[derive(Debug, PartialEq, Eq)]
pub enum Compatibility {
    Compatible,
    /// Everything required is present; what differs is reported, not refused.
    CompatibleWithGaps { client_missing: Vec<String>, engine_missing: Vec<String> },
    Incompatible { reasons: Vec<String> },
}

/// A claim, as plain values.
pub struct ClaimView {
    pub client_name: Seq<char>,
    pub client_version: Seq<char>,
    pub grammar_digest: Seq<char>,
    pub required_capabilities: Seq<Seq<char>>,
    pub required_formats: Seq<(Seq<char>, u32)>,
}

/// A constitution, as plain values.
pub struct ConstitutionView {
    pub engine_version: Seq<char>,
    pub formats: Seq<(Seq<char>, u32)>,
    pub capabilities: Seq<Seq<char>>,
    pub invariants: Seq<(Seq<char>, Seq<char>)>,
    pub grammar_digest: Seq<char>,
}

/// An engine answer, as plain values.
pub enum CompatibilityView {
    Compatible,
    CompatibleWithGaps { client_missing: Seq<Seq<char>>, engine_missing: Seq<Seq<char>> },
    Incompatible { reasons: Seq<Seq<char>> },
}

/// The formats of a list, as (name, version) pairs.
pub open spec fn format_views(v: Seq<FormatVersion>) -> Seq<(Seq<char>, u32)> {
    v.map_values(|f: FormatVersion| (f.name@, f.version))
}

impl View for Constitution {
    type V = ConstitutionView;

    open spec fn view(&self) -> ConstitutionView {
        ConstitutionView {
            engine_version: self.engine_version@,
            formats: format_views(self.formats@),
            capabilities: str_views(self.capabilities@),
            invariants: self.invariants@.map_values(|i: Invariant| (i.id@, i.statement@)),
            grammar_digest: self.grammar_digest@,
        }
    }
}

impl View for ClientClaim {
    type V = ClaimView;

    open spec fn view(&self) -> ClaimView {
        ClaimView {
            client_name: self.client_name@,
            client_version: self.client_version@,
            grammar_digest: self.grammar_digest@,
            required_capabilities: string_views(self.required_capabilities@),
            required_formats: format_views(self.required_formats@),
        }
    }
}

impl View for Compatibility {
    type V = CompatibilityView;

    open spec fn view(&self) -> CompatibilityView {
        match self {
            Compatibility::Compatible => CompatibilityView::Compatible,
            Compatibility::CompatibleWithGaps { client_missing, engine_missing } =>
                CompatibilityView::CompatibleWithGaps {
                    client_missing: string_views(client_missing@),
                    engine_missing: string_views(engine_missing@),
                },
            Compatibility::Incompatible { reasons } =>
                CompatibilityView::Incompatible { reasons: string_views(reasons@) },
        }
    }
}

// ── The linked engine's tables ──────────────────────────────────────────

/// The capabilities the linked engine (nedb-engine 12.15.16) advertises, in
/// its order: the NQL language surface first, then the engine surface.
pub open spec fn engine_capabilities() -> Seq<Seq<char>> {
    seq![
        "nql.from"@,
        "nql.as_of"@,
        "nql.valid_as_of"@,
        "nql.where.comparison"@,
        "nql.where.boolean"@,
        "nql.where.in"@,
        "nql.where.between"@,
        "nql.where.like"@,
        "nql.where.regex_subset"@,
        "nql.where.is_null"@,
        "nql.search"@,
        "nql.order_by.multi_key"@,
        "nql.limit"@,
        "nql.offset"@,
        "nql.group_by"@,
        "nql.aggregate.bare"@,
        "nql.having"@,
        "nql.trace"@,
        "nql.traverse"@,
        "state_root.compute"@,
        "state_root.as_of"@,
        "root.persist"@,
        "root.verify.three_state"@,
        "history.as_of"@,
        "history.floor"@,
        "collections.registry"@,
        "collections.drop"@,
        "delete.tombstone"@,
        "graph.edges"@,
        "index.sorted"@,
        "replication.since"@,
        "storage.encryption.aes256gcm"@,
        "storage.compaction"@,
        "storage.segment_v3"@,
        "wire.http"@,
        "wire.pgwire"@,
    ]
}

/// The formats the linked engine implements, in its order.
pub open spec fn engine_formats() -> Seq<(Seq<char>, u32)> {
    seq![
        ("state_root"@, 1u32),
        ("node"@, 2u32),
        ("object_store"@, 2u32),
        ("segment"@, 3u32),
        ("collection_registry"@, 1u32),
        ("root_record"@, 1u32),
    ]
}

/// The invariants the linked engine promises, as (id, statement), in its order.
pub open spec fn engine_invariants() -> Seq<(Seq<char>, Seq<char>)> {
    seq![
        (
            "INV-HISTORY-APPEND-ONLY"@,
            "Committed history is append-only: no operation rewrites or removes a committed node, so a revert, rollback or merge is expressed as new nodes appended to history rather than as an edit to the old ones."@,
        ),
        (
            "INV-OBJECT-IMMUTABLE"@,
            "An object is addressed by the BLAKE2b digest of its stored bytes, written atomically, and hash-verified on every read, so a stored version can never change under a reader."@,
        ),
        (
            "INV-DELETE-TOMBSTONE"@,
            "A delete writes a tombstone node and moves the id to the graveyard index; the prior versions remain reachable, so a delete hides a document rather than erasing it."@,
        ),
        (
            "INV-RESERVED-NAMESPACE"@,
            "Everything under the `_nedb` prefix is engine-owned and refused to user writes, because a client able to write there could forge the namespace a state root commits to."@,
        ),
        (
            "INV-COLLECTION-BY-RECORD"@,
            "A collection exists because a record in `_nedb.collections` says it is live, never because a directory is lying around, so emptying a collection does not destroy it and only an explicit drop does."@,
        ),
        (
            "INV-NAME-BYTE-EXACT"@,
            "A collection name is committed as the exact UTF-8 bytes it was created with — never Unicode-normalised and never trimmed — so an unusable name is refused at creation rather than silently rewritten into a different collection."@,
        ),
        (
            "INV-ROOT-LOGICAL-CONTENT"@,
            "A state root commits to logical content rather than to object hashes, so it is identical across encrypted and plaintext replicas and across disk and memory holding the same data."@,
        ),
        (
            "INV-ROOT-CURRENT-STATE"@,
            "A state root commits to what the database currently says — live collections and live documents, with tombstones contributing nothing — and not to the history by which that state was reached, which the running Merkle head covers instead."@,
        ),
        (
            "INV-MERKLE-PROMOTE-ODD"@,
            "An odd leaf is promoted unchanged to the next level and never duplicated, because leaf duplication is the CVE-2012-2459 construction in which two different leaf sets produce one root."@,
        ),
        (
            "INV-MERKLE-COUNT-COMMITTED"@,
            "The leaf count is committed alongside the fold in each subtree root, so promotion can never leave two different leaf sets sharing a tree shape."@,
        ),
        (
            "INV-COMPACTION-ONLY-DISCARD"@,
            "Compaction is the only operation that discards history, it runs only when an operator explicitly asks, and nothing — no timer, no HTTP route — triggers it automatically."@,
        ),
        (
            "INV-VERIFY-SEPARATE-FACTS"@,
            "A persisted root may outlive the material needed to recompute it, so verification reports record validity and recomputation outcome as two separate facts and never collapses `could not check` into either pass or fail."@,
        ),
        (
            "INV-QUERY-STRICT"@,
            "A token the parser does not recognise is a query error, never a skipped token, because silently dropping a clause answers a different question than the one that was asked."@,
        ),
    ]
}

/// `c` is the linked engine's constitution: its version, formats, capabilities
/// and invariants, whatever its grammar digest.
pub open spec fn engine_tables(c: ConstitutionView) -> bool {
    &&& c.engine_version == "12.15.16"@
    &&& c.formats == engine_formats()
    &&& c.capabilities == engine_capabilities()
    &&& c.invariants == engine_invariants()
}

/// This build asks only for what the linked engine offers: every capability
/// and every format its claim requires is one the engine's tables list.
pub proof fn lemma_claim_asks_only_what_the_engine_offers()
    ensures
        forall|i: int| 0 <= i < required_capabilities().len()
            ==> engine_capabilities().contains(#[trigger] required_capabilities()[i]),
        forall|i: int| 0 <= i < required_formats().len()
            ==> engine_formats().contains(#[trigger] required_formats()[i]),
{
    let caps = engine_capabilities();
    let req = required_capabilities();
    assert(caps[19] == req[0]);
    assert(caps[20] == req[1]);
    assert(caps[21] == req[2]);
    assert(caps[22] == req[3]);
    assert(caps[23] == req[4]);
    assert(caps[24] == req[5]);
    assert(caps[25] == req[6]);
    assert(caps[30] == req[7]);
    assert(caps[0] == req[8]);
    let fs = engine_formats();
    let rf = required_formats();
    assert(fs[0] == rf[0]);
    assert(fs[5] == rf[1]);
    assert(fs[4] == rf[2]);
}

// ── Calls into the engine ─────────────────────────────────────────────────

/// What `nedb_engine::constitution::check_compatibility` answers to a claim.
///
/// The engine compares the claim with its own tables (capabilities, formats,
/// grammar digest), which are fixed for the engine version this crate links.
pub uninterp spec fn engine_compatibility(claim: ClaimView) -> CompatibilityView;

/// The digest of the NQL grammar the linked engine implements
/// (`nedb_engine::constitution::grammar_digest`). Nothing is claimed of the text.
#[verifier::external_body]
fn engine_grammar_digest() -> String {
    engine::grammar_digest()
}

/// The linked engine's constitution (`nedb_engine::constitution::constitution`),
/// field for field.
///
/// Claimed: its version, formats, capabilities and invariants are the engine's
/// fixed tables (`engine_tables`): the version is the engine crate's package
/// version and the lists are its constant tables, copied in order. Its grammar
/// digest, a hash, is not stated.
#[verifier::external_body]
fn engine_constitution() -> (c: Constitution)
    ensures
        engine_tables(c@),
{
    let c = engine::constitution();
    Constitution {
        engine_version: c.engine_version,
        formats: c.formats.iter().map(|f| FormatVersion { name: f.name, version: f.version }).collect(),
        capabilities: c.capabilities,
        invariants: c.invariants.iter().map(|i| Invariant { id: i.id, statement: i.statement }).collect(),
        grammar_digest: c.grammar_digest,
    }
}

/// What `nedb_engine::constitution::Constitution::digest` computes for a
/// constitution: a hash over an ordered encoding of its fields.
pub uninterp spec fn constitution_digest_of(c: ConstitutionView) -> Seq<char>;

/// The digest of a constitution (`nedb_engine::constitution::Constitution::digest`),
/// which the engine's `digest()` computes for its own constitution.
///
/// Claimed: the text is `constitution_digest_of` the constitution's fields; the
/// engine's method reads those fields and nothing else.
#[verifier::external_body]
fn engine_digest_of(c: &Constitution) -> (digest: String)
    ensures
        digest@ == constitution_digest_of(c@),
{
    engine::Constitution {
        engine_version: c.engine_version,
        formats: c.formats.iter().map(|f| engine::FormatVersion { name: f.name, version: f.version }).collect(),
        capabilities: c.capabilities.clone(),
        invariants: c.invariants.iter().map(|i| engine::Invariant { id: i.id, statement: i.statement }).collect(),
        grammar_digest: c.grammar_digest.clone(),
    }.digest()
}

/// The engine's verdict on a claim (`nedb_engine::constitution::check_compatibility`).
///
/// Claimed: the answer is `engine_compatibility` of the claim; a refusal always
/// carries at least one reason (the engine builds `Incompatible` only through a
/// constructor that asserts a non-empty list); and a report of gaps names at
/// least one gap (with none, the engine answers `Compatible`).
#[verifier::external_body]
fn engine_check(claim: &ClientClaim) -> (answer: Compatibility)
    ensures
        answer@ == engine_compatibility(claim@),
        answer matches Compatibility::Incompatible { reasons } ==> reasons.len() > 0,
        answer matches Compatibility::CompatibleWithGaps { client_missing, engine_missing }
            ==> client_missing.len() > 0 || engine_missing.len() > 0,
{
    let c = engine::ClientClaim {
        client_name: claim.client_name.clone(),
        client_version: claim.client_version.clone(),
        grammar_digest: claim.grammar_digest.clone(),
        required_capabilities: claim.required_capabilities.clone(),
        required_formats: claim.required_formats.iter()
            .map(|f| engine::FormatVersion { name: f.name, version: f.version }).collect(),
    };
    match engine::check_compatibility(&c) {
        engine::Compatibility::Compatible => Compatibility::Compatible,
        engine::Compatibility::CompatibleWithGaps { client_missing, engine_missing } =>
            Compatibility::CompatibleWithGaps { client_missing, engine_missing },
        engine::Compatibility::Incompatible { reasons } => Compatibility::Incompatible { reasons },
    }
}

// ── The claim ─────────────────────────────────────────────────────────────

/// The capabilities this CLI's implemented commands actually touch — not
/// everything the engine can do. Requiring more than you use turns a harmless
/// version skew into a refusal to start.
pub open spec fn required_capabilities() -> Seq<Seq<char>> {
    seq![
        "state_root.compute"@,
        "state_root.as_of"@,
        "root.persist"@,
        "root.verify.three_state"@,
        "history.as_of"@,
        "history.floor"@,
        "collections.registry"@,
        "replication.since"@,
        "nql.from"@,
    ]
}

/// The formats this CLI reads and writes.
pub open spec fn required_formats() -> Seq<(Seq<char>, u32)> {
    seq![("state_root"@, 1u32), ("root_record"@, 1u32), ("collection_registry"@, 1u32)]
}

/// This build's claim, carrying `grammar_digest` as the NQL grammar it implements.
pub open spec fn this_builds_claim(grammar_digest: Seq<char>) -> ClaimView {
    ClaimView {
        client_name: "nesql"@,
        client_version: crate::VERSION@,
        grammar_digest,
        required_capabilities: required_capabilities(),
        required_formats: required_formats(),
    }
}

/// Two claims of this build that carry the same grammar digest are the same
/// claim: same name, version and digest, same capabilities and formats in the
/// same order.
pub proof fn lemma_claim_is_determined_by_digest(a: ClaimView, b: ClaimView, grammar_digest: Seq<char>)
    requires
        a == this_builds_claim(grammar_digest),
        b == this_builds_claim(grammar_digest),
    ensures
        a == b,
{
}

fn push_capability(v: &mut Vec<String>, c: &str)
    ensures
        string_views(final(v)@) == string_views(old(v)@).push(c@),
{
    let ghost before = v@;
    v.push(c.to_string());
    assert(string_views(v@) =~= string_views(before).push(c@));
}

/// This build's claim, carrying `grammar_digest` as the grammar it implements.
pub fn claim_with(grammar_digest: String) -> (claim: ClientClaim)
    ensures
        claim@ == this_builds_claim(grammar_digest@),
{
    let mut caps: Vec<String> = Vec::new();
    push_capability(&mut caps, "state_root.compute");
    push_capability(&mut caps, "state_root.as_of");
    push_capability(&mut caps, "root.persist");
    push_capability(&mut caps, "root.verify.three_state");
    push_capability(&mut caps, "history.as_of");
    push_capability(&mut caps, "history.floor");
    push_capability(&mut caps, "collections.registry");
    push_capability(&mut caps, "replication.since");
    push_capability(&mut caps, "nql.from");
    let mut formats: Vec<FormatVersion> = Vec::new();
    formats.push(FormatVersion { name: "state_root", version: 1 });
    formats.push(FormatVersion { name: "root_record", version: 1 });
    formats.push(FormatVersion { name: "collection_registry", version: 1 });
    let claim = ClientClaim {
        client_name: "nesql".to_string(),
        client_version: crate::VERSION.to_string(),
        grammar_digest,
        required_capabilities: caps,
        required_formats: formats,
    };
    assert(claim@.required_capabilities =~= required_capabilities());
    assert(claim@.required_formats =~= required_formats());
    assert(claim@ =~= this_builds_claim(claim.grammar_digest@));
    claim
}

/// What this CLI requires of an engine.
///
/// The grammar digest is the NQL grammar this build implements, and the CLI
/// implements NQL by linking the engine, so it is the engine's own digest
/// (never the digest of the CLI's command surface). What the engine answers
/// for its digest is not stated here; `run` takes the digest from the
/// engine's constitution and states that the two agree.
pub fn claim() -> (claim: ClientClaim)
    ensures
        claim@ == this_builds_claim(claim.grammar_digest@),
{
    claim_with(engine_grammar_digest())
}

// ── The verdict ───────────────────────────────────────────────────────────

/// Each item of `items`, preceded by `prefix`.
pub open spec fn prefixed(prefix: Seq<char>, items: Seq<Seq<char>>) -> Seq<Seq<char>> {
    items.map_values(|m: Seq<char>| prefix + m)
}

/// The exit, the verdict word and the detail lines for an engine answer.
///
/// A gap is NOT an error: additive change must not break an old client, and a
/// subset client is a legitimate client. Only a refusal ends `Unsupported`.
pub open spec fn verdict(answer: CompatibilityView) -> (Exit, Seq<char>, Seq<Seq<char>>) {
    match answer {
        CompatibilityView::Compatible => (Exit::Success, "compatible"@, Seq::empty()),
        CompatibilityView::CompatibleWithGaps { client_missing, engine_missing } => (
            Exit::Success,
            "compatible with gaps"@,
            prefixed("engine does not advertise: "@, engine_missing)
                + prefixed("this build did not ask for: "@, client_missing),
        ),
        CompatibilityView::Incompatible { reasons } => (Exit::Unsupported, "INCOMPATIBLE"@, reasons),
    }
}

/// Appends `prefix + m` to `out` for each `m` of `items`.
fn push_prefixed(out: &mut Vec<String>, prefix: &str, items: &Vec<String>)
    ensures
        string_views(final(out)@) == string_views(old(out)@) + prefixed(prefix@, string_views(items@)),
{
    let ghost start = string_views(out@);
    let ghost views = string_views(items@);
    let n = items.len();
    let mut i: usize = 0;
    while i < n
        invariant
            n == items@.len(),
            views == string_views(items@),
            i <= n,
            string_views(out@) =~= start + prefixed(prefix@, views.take(i as int)),
        decreases n - i,
    {
        let mut line = prefix.to_string();
        line.append(items[i].as_str());
        let ghost before = out@;
        out.push(line);
        proof {
            assert(string_views(out@) =~= string_views(before).push(prefix@ + views[i as int]));
            assert(prefixed(prefix@, views.take(i + 1)) =~= prefixed(prefix@, views.take(i as int)).push(
                prefix@ + views[i as int],
            ));
        }
        i = i + 1;
    }
    assert(views.take(n as int) =~= views);
}

/// The exit, the verdict word and the detail lines for an engine answer.
pub fn verdict_of(answer: &Compatibility) -> (r: (Exit, String, Vec<String>))
    ensures
        (r.0, r.1@, string_views(r.2@)) == verdict(answer@),
        (r.0 == Exit::Unsupported) <==> (answer is Incompatible),
        answer matches Compatibility::Incompatible { reasons } ==> {
            &&& r.2.len() == reasons.len()
            &&& forall|i: int| 0 <= i < reasons.len() ==> #[trigger] r.2@[i]@ == reasons@[i]@
        },
{
    proof {
        lemma_only_refusal_is_unsupported(answer@);
        if let Compatibility::Incompatible { reasons } = answer {
            lemma_refusal_detail_is_reasons(string_views(reasons@));
        }
    }
    match answer {
        Compatibility::Compatible => {
            let d: Vec<String> = Vec::new();
            assert(string_views(d@) =~= Seq::<Seq<char>>::empty());
            (Exit::Success, "compatible".to_string(), d)
        },
        Compatibility::CompatibleWithGaps { client_missing, engine_missing } => {
            let mut d: Vec<String> = Vec::new();
            assert(string_views(d@) =~= Seq::<Seq<char>>::empty());
            push_prefixed(&mut d, "engine does not advertise: ", engine_missing);
            push_prefixed(&mut d, "this build did not ask for: ", client_missing);
            proof {
                let e = prefixed("engine does not advertise: "@, string_views(engine_missing@));
                assert(Seq::<Seq<char>>::empty() + e =~= e);
            }
            (Exit::Success, "compatible with gaps".to_string(), d)
        },
        Compatibility::Incompatible { reasons } => {
            (Exit::Unsupported, "INCOMPATIBLE".to_string(), reasons.clone())
        },
    }
}

/// Only a refusal is an error: the report's exit is `Unsupported` exactly when
/// the engine answered `Incompatible`, and a report of gaps exits `Success`.
pub proof fn lemma_only_refusal_is_unsupported(answer: CompatibilityView)
    ensures
        (verdict(answer).0 == Exit::Unsupported) <==> (answer is Incompatible),
        answer is CompatibleWithGaps ==> verdict(answer).0 == Exit::Success,
{
}

/// A refusal is reported with exactly the engine's reasons, all of them, in
/// the engine's order, under the verdict `INCOMPATIBLE`.
pub proof fn lemma_refusal_detail_is_reasons(reasons: Seq<Seq<char>>)
    ensures
        ({
            let v = verdict(CompatibilityView::Incompatible { reasons });
            &&& v.0 == Exit::Unsupported
            &&& v.1 == "INCOMPATIBLE"@
            &&& v.2.len() == reasons.len()
            &&& forall|i: int| 0 <= i < reasons.len() ==> #[trigger] v.2[i] == reasons[i]
        }),
{
}

/// An answer without refusal, with or without gaps, is reported with exit
/// `Success` and the matching verdict word; it has detail exactly when the
/// engine named a gap.
pub proof fn lemma_acceptance_is_success(client_missing: Seq<Seq<char>>, engine_missing: Seq<Seq<char>>)
    ensures
        verdict(CompatibilityView::Compatible).0 == Exit::Success,
        verdict(CompatibilityView::Compatible).1 == "compatible"@,
        verdict(CompatibilityView::Compatible).2.len() == 0,
        verdict(CompatibilityView::CompatibleWithGaps { client_missing, engine_missing }).0 == Exit::Success,
        verdict(CompatibilityView::CompatibleWithGaps { client_missing, engine_missing }).1
            == "compatible with gaps"@,
{
}

/// Every gap is reported, engine-side gaps first, each once, and nothing else:
/// the detail of a report of gaps has one line per gap.
pub proof fn lemma_gap_lines(client_missing: Seq<Seq<char>>, engine_missing: Seq<Seq<char>>)
    ensures
        ({
            let d = verdict(CompatibilityView::CompatibleWithGaps { client_missing, engine_missing }).2;
            &&& d.len() == engine_missing.len() + client_missing.len()
            &&& forall|i: int| 0 <= i < engine_missing.len()
                ==> #[trigger] d[i] == "engine does not advertise: "@ + engine_missing[i]
            &&& forall|j: int| 0 <= j < client_missing.len()
                ==> #[trigger] d[engine_missing.len() + j] == "this build did not ask for: "@ + client_missing[j]
        }),
{
}

// ── The human report ──────────────────────────────────────────────────────

/// The note under the NQL grammar line: whether the engine's grammar is the one
/// this build compiled against.
pub open spec fn grammar_note(agrees: bool) -> Seq<char> {
    if agrees {
        "               (agrees — same grammar this build compiled against)\n"@
    } else {
        "               (this build compiled against a different NQL grammar — `nql.*` capabilities cannot be promised)\n"@
    }
}

/// One bulleted line per detail.
pub open spec fn detail_lines(detail: Seq<Seq<char>>) -> Seq<char>
    decreases detail.len(),
{
    if detail.len() == 0 {
        Seq::empty()
    } else {
        detail_lines(detail.drop_last()) + "  · "@ + detail.last() + "\n"@
    }
}

/// The detail block: nothing when there is no detail, else a blank line and the lines.
pub open spec fn detail_section(detail: Seq<Seq<char>>) -> Seq<char> {
    if detail.len() == 0 {
        Seq::empty()
    } else {
        "\n"@ + detail_lines(detail)
    }
}

/// One line per format: `  <name> v<version>`.
pub open spec fn format_lines(formats: Seq<FormatVersion>) -> Seq<char>
    decreases formats.len(),
{
    if formats.len() == 0 {
        Seq::empty()
    } else {
        format_lines(formats.drop_last()) + "  "@ + formats.last().name@ + " v"@
            + decimal(formats.last().version as nat) + "\n"@
    }
}

/// Two lines per invariant: its id, then its statement indented.
pub open spec fn invariant_lines(invariants: Seq<Invariant>) -> Seq<char>
    decreases invariants.len(),
{
    if invariants.len() == 0 {
        Seq::empty()
    } else {
        invariant_lines(invariants.drop_last()) + "  "@ + invariants.last().id@ + "\n    "@
            + invariants.last().statement@ + "\n"@
    }
}

/// The text `nesql constitution` prints for a person.
///
/// Two digests over two different things are printed under two different
/// names: the NQL grammar the engine implements, and the CLI's own command
/// surface, which is deliberately not compared to it.
pub open spec fn human_text(
    c: Constitution,
    cli_version: Seq<char>,
    verdict: Seq<char>,
    detail: Seq<Seq<char>>,
    constitution_digest: Seq<char>,
    claim_grammar_digest: Seq<char>,
    command_surface: Seq<char>,
) -> Seq<char> {
    "engine         "@ + c.engine_version@ + "\nnesql          "@ + cli_version + "\nverdict        "@
        + verdict + "\n"@
        + "constitution   "@ + constitution_digest + "\n"@
        + "nql grammar    "@ + c.grammar_digest@ + "\n"@
        + grammar_note(claim_grammar_digest == c.grammar_digest@)
        + "command surface "@ + command_surface
        + "\n               (nesql's own verbs — NOT the NQL grammar, and deliberately not compared to it)\n"@
        + detail_section(detail)
        + "\nformats        "@ + decimal(c.formats.len() as nat) + "\n"@ + format_lines(c.formats@)
        + "\ninvariants     "@ + decimal(c.invariants.len() as nat) + "\n"@ + invariant_lines(c.invariants@)
        + "\ncapabilities   "@ + decimal(c.capabilities.len() as nat) + "\n  "@
        + join(str_views(c.capabilities@), "\n  "@)
}

/// The lines of the human text above the grammar note: engine, CLI version,
/// verdict, constitution digest and the engine's NQL grammar digest.
pub open spec fn human_head(
    c: Constitution,
    cli_version: Seq<char>,
    verdict: Seq<char>,
    constitution_digest: Seq<char>,
) -> Seq<char> {
    "engine         "@ + c.engine_version@ + "\nnesql          "@ + cli_version + "\nverdict        "@
        + verdict + "\n"@
        + "constitution   "@ + constitution_digest + "\n"@
        + "nql grammar    "@ + c.grammar_digest@ + "\n"@
}

/// The human text below the grammar note: the command surface, the detail,
/// the formats, the invariants and the capabilities.
pub open spec fn human_tail(c: Constitution, detail: Seq<Seq<char>>, command_surface: Seq<char>) -> Seq<char> {
    "command surface "@ + command_surface
        + "\n               (nesql's own verbs — NOT the NQL grammar, and deliberately not compared to it)\n"@
        + detail_section(detail)
        + "\nformats        "@ + decimal(c.formats.len() as nat) + "\n"@ + format_lines(c.formats@)
        + "\ninvariants     "@ + decimal(c.invariants.len() as nat) + "\n"@ + invariant_lines(c.invariants@)
        + "\ncapabilities   "@ + decimal(c.capabilities.len() as nat) + "\n  "@
        + join(str_views(c.capabilities@), "\n  "@)
}

/// The detail lines are one bulleted line per detail, in order, and nothing else.
pub proof fn lemma_detail_lines_are_bullets(detail: Seq<Seq<char>>)
    ensures
        detail_lines(detail) == detail.map_values(|d: Seq<char>| "  · "@ + d + "\n"@).flatten(),
    decreases detail.len(),
{
    if detail.len() > 0 {
        lemma_detail_lines_are_bullets(detail.drop_last());
        let f = |d: Seq<char>| "  · "@ + d + "\n"@;
        assert(detail.map_values(f) =~= detail.drop_last().map_values(f).push(f(detail.last())));
        detail.drop_last().map_values(f).lemma_flatten_push(f(detail.last()));
    } else {
        assert(detail.map_values(|d: Seq<char>| "  · "@ + d + "\n"@) =~= Seq::<Seq<char>>::empty());
    }
}

/// The format lines are one line `  <name> v<version>` per format, in order.
pub proof fn lemma_format_lines_one_per_format(formats: Seq<FormatVersion>)
    ensures
        format_lines(formats) == formats.map_values(
            |f: FormatVersion| "  "@ + f.name@ + " v"@ + decimal(f.version as nat) + "\n"@,
        ).flatten(),
    decreases formats.len(),
{
    if formats.len() > 0 {
        lemma_format_lines_one_per_format(formats.drop_last());
        let g = |f: FormatVersion| "  "@ + f.name@ + " v"@ + decimal(f.version as nat) + "\n"@;
        assert(formats.map_values(g) =~= formats.drop_last().map_values(g).push(g(formats.last())));
        formats.drop_last().map_values(g).lemma_flatten_push(g(formats.last()));
    } else {
        assert(formats.map_values(
            |f: FormatVersion| "  "@ + f.name@ + " v"@ + decimal(f.version as nat) + "\n"@,
        ) =~= Seq::<Seq<char>>::empty());
    }
}

/// The invariant lines are, per invariant in order, its id and then its
/// statement indented.
pub proof fn lemma_invariant_lines_one_per_invariant(invariants: Seq<Invariant>)
    ensures
        invariant_lines(invariants) == invariants.map_values(
            |i: Invariant| "  "@ + i.id@ + "\n    "@ + i.statement@ + "\n"@,
        ).flatten(),
    decreases invariants.len(),
{
    if invariants.len() > 0 {
        lemma_invariant_lines_one_per_invariant(invariants.drop_last());
        let g = |i: Invariant| "  "@ + i.id@ + "\n    "@ + i.statement@ + "\n"@;
        assert(invariants.map_values(g) =~= invariants.drop_last().map_values(g).push(g(invariants.last())));
        invariants.drop_last().map_values(g).lemma_flatten_push(g(invariants.last()));
    } else {
        assert(invariants.map_values(
            |i: Invariant| "  "@ + i.id@ + "\n    "@ + i.statement@ + "\n"@,
        ) =~= Seq::<Seq<char>>::empty());
    }
}

/// Joining lists every item once, in order: the first item, then each
/// following item preceded by the separator.
pub proof fn lemma_join_lists_every_item(items: Seq<Seq<char>>, sep: Seq<char>)
    ensures
        join(items, sep) == if items.len() == 0 {
            Seq::<char>::empty()
        } else {
            items[0] + items.drop_first().map_values(|x: Seq<char>| sep + x).flatten()
        },
    decreases items.len(),
{
    let g = |x: Seq<char>| sep + x;
    if items.len() == 1 {
        assert(items.drop_first().map_values(g) =~= Seq::<Seq<char>>::empty());
        assert(items[0] + Seq::<char>::empty() =~= items[0]);
    } else if items.len() > 1 {
        let init = items.drop_last();
        lemma_join_lists_every_item(init, sep);
        assert(init[0] == items[0]);
        assert(items.drop_first().map_values(g) =~= init.drop_first().map_values(g).push(g(items.last())));
        init.drop_first().map_values(g).lemma_flatten_push(g(items.last()));
        assert(join(items, sep) =~= items[0] + items.drop_first().map_values(g).flatten());
    }
}

/// The layout of the human text: engine, CLI version, verdict, constitution
/// digest and NQL grammar digest, each on its line; the note that says whether
/// the claim's grammar is the engine's; the command surface under its own name;
/// when there is detail, a blank line and one bulleted line per detail line;
/// then the formats, the invariants and the capabilities, each headed by its
/// count and listed in order.
pub proof fn lemma_human_text_layout(
    c: Constitution,
    cli_version: Seq<char>,
    verdict: Seq<char>,
    detail: Seq<Seq<char>>,
    constitution_digest: Seq<char>,
    claim_grammar_digest: Seq<char>,
    command_surface: Seq<char>,
)
    ensures
        human_text(c, cli_version, verdict, detail, constitution_digest, claim_grammar_digest, command_surface)
            == "engine         "@ + c.engine_version@ + "\nnesql          "@ + cli_version
            + "\nverdict        "@ + verdict + "\n"@
            + "constitution   "@ + constitution_digest + "\n"@
            + "nql grammar    "@ + c.grammar_digest@ + "\n"@
            + (if claim_grammar_digest == c.grammar_digest@ {
                "               (agrees — same grammar this build compiled against)\n"@
            } else {
                "               (this build compiled against a different NQL grammar — `nql.*` capabilities cannot be promised)\n"@
            })
            + "command surface "@ + command_surface
            + "\n               (nesql's own verbs — NOT the NQL grammar, and deliberately not compared to it)\n"@
            + (if detail.len() == 0 {
                Seq::<char>::empty()
            } else {
                "\n"@ + detail.map_values(|d: Seq<char>| "  · "@ + d + "\n"@).flatten()
            })
            + "\nformats        "@ + decimal(c.formats.len() as nat) + "\n"@
            + c.formats@.map_values(
                |f: FormatVersion| "  "@ + f.name@ + " v"@ + decimal(f.version as nat) + "\n"@,
            ).flatten()
            + "\ninvariants     "@ + decimal(c.invariants.len() as nat) + "\n"@
            + c.invariants@.map_values(
                |i: Invariant| "  "@ + i.id@ + "\n    "@ + i.statement@ + "\n"@,
            ).flatten()
            + "\ncapabilities   "@ + decimal(c.capabilities.len() as nat) + "\n  "@
            + (if c.capabilities.len() == 0 {
                Seq::<char>::empty()
            } else {
                c.capabilities@[0]@ + str_views(c.capabilities@).drop_first().map_values(
                    |x: Seq<char>| "\n  "@ + x,
                ).flatten()
            }),
{
    lemma_detail_lines_are_bullets(detail);
    lemma_format_lines_one_per_format(c.formats@);
    lemma_invariant_lines_one_per_invariant(c.invariants@);
    lemma_join_lists_every_item(str_views(c.capabilities@), "\n  "@);
}

/// The human text is its head, the grammar note, and its tail.
pub proof fn lemma_human_text_parts(
    c: Constitution,
    cli_version: Seq<char>,
    verdict: Seq<char>,
    detail: Seq<Seq<char>>,
    constitution_digest: Seq<char>,
    claim_grammar_digest: Seq<char>,
    command_surface: Seq<char>,
)
    ensures
        human_text(c, cli_version, verdict, detail, constitution_digest, claim_grammar_digest, command_surface)
            == human_head(c, cli_version, verdict, constitution_digest)
                + grammar_note(claim_grammar_digest == c.grammar_digest@)
                + human_tail(c, detail, command_surface),
{
    assert(human_text(c, cli_version, verdict, detail, constitution_digest, claim_grammar_digest, command_surface)
        =~= human_head(c, cli_version, verdict, constitution_digest)
            + grammar_note(claim_grammar_digest == c.grammar_digest@)
            + human_tail(c, detail, command_surface));
}

fn push_detail_section(s: &mut String, detail: &Vec<String>)
    ensures
        final(s)@ == old(s)@ + detail_section(string_views(detail@)),
{
    let ghost start = s@;
    let ghost views = string_views(detail@);
    let n = detail.len();
    if n == 0 {
        assert(s@ =~= start + detail_section(views));
        return;
    }
    s.append("\n");
    let mut i: usize = 0;
    while i < n
        invariant
            n == detail@.len(),
            views == string_views(detail@),
            i <= n,
            s@ =~= start + "\n"@ + detail_lines(views.take(i as int)),
        decreases n - i,
    {
        s.append("  · ");
        s.append(detail[i].as_str());
        s.append("\n");
        assert(views.take(i + 1).drop_last() =~= views.take(i as int));
        i = i + 1;
    }
    assert(views.take(n as int) =~= views);
}

fn push_format_lines(s: &mut String, formats: &Vec<FormatVersion>)
    ensures
        final(s)@ == old(s)@ + format_lines(formats@),
{
    let ghost start = s@;
    let n = formats.len();
    let mut i: usize = 0;
    while i < n
        invariant
            n == formats@.len(),
            i <= n,
            s@ =~= start + format_lines(formats@.take(i as int)),
        decreases n - i,
    {
        let f = formats[i];
        s.append("  ");
        s.append(f.name);
        s.append(" v");
        push_decimal(s, f.version as u64);
        s.append("\n");
        assert(formats@.take(i + 1).drop_last() =~= formats@.take(i as int));
        i = i + 1;
    }
    assert(formats@.take(n as int) =~= formats@);
}

fn push_invariant_lines(s: &mut String, invariants: &Vec<Invariant>)
    ensures
        final(s)@ == old(s)@ + invariant_lines(invariants@),
{
    let ghost start = s@;
    let n = invariants.len();
    let mut i: usize = 0;
    while i < n
        invariant
            n == invariants@.len(),
            i <= n,
            s@ =~= start + invariant_lines(invariants@.take(i as int)),
        decreases n - i,
    {
        let inv = invariants[i];
        s.append("  ");
        s.append(inv.id);
        s.append("\n    ");
        s.append(inv.statement);
        s.append("\n");
        assert(invariants@.take(i + 1).drop_last() =~= invariants@.take(i as int));
        i = i + 1;
    }
    assert(invariants@.take(n as int) =~= invariants@);
}

/// The text `nesql constitution` prints for a person, from the facts behind it.
pub fn render_human(
    c: &Constitution,
    cli_version: &str,
    verdict: &str,
    detail: &Vec<String>,
    constitution_digest: &str,
    claim_grammar_digest: &String,
    command_surface: &str,
) -> (human: String)
    ensures
        human@ == human_text(
            *c,
            cli_version@,
            verdict@,
            string_views(detail@),
            constitution_digest@,
            claim_grammar_digest@,
            command_surface@,
        ),
{
    let mut h = String::new();
    h.append("engine         ");
    h.append(c.engine_version);
    h.append("\nnesql          ");
    h.append(cli_version);
    h.append("\nverdict        ");
    h.append(verdict);
    h.append("\n");
    h.append("constitution   ");
    h.append(constitution_digest);
    h.append("\n");
    h.append("nql grammar    ");
    h.append(c.grammar_digest.as_str());
    h.append("\n");
    if *claim_grammar_digest != c.grammar_digest {
        // Only reachable against an engine of a different build.
        h.append(
            "               (this build compiled against a different NQL grammar — `nql.*` capabilities cannot be promised)\n",
        );
    } else {
        h.append("               (agrees — same grammar this build compiled against)\n");
    }
    h.append("command surface ");
    h.append(command_surface);
    h.append(
        "\n               (nesql's own verbs — NOT the NQL grammar, and deliberately not compared to it)\n",
    );
    push_detail_section(&mut h, detail);
    h.append("\nformats        ");
    push_decimal(&mut h, c.formats.len() as u64);
    h.append("\n");
    push_format_lines(&mut h, &c.formats);
    h.append("\ninvariants     ");
    push_decimal(&mut h, c.invariants.len() as u64);
    h.append("\n");
    push_invariant_lines(&mut h, &c.invariants);
    h.append("\ncapabilities   ");
    push_decimal(&mut h, c.capabilities.len() as u64);
    h.append("\n  ");
    push_joined(&mut h, &c.capabilities, "\n  ");
    h
}

// ── The command ───────────────────────────────────────────────────────────

/// `r` is the report of `nesql constitution` for these answers of the engine:
/// its constitution and constitution digest, this build's claim, the engine's
/// verdict on it, and the CLI's command-surface digest.
pub open spec fn is_report_of(
    r: Report,
    c: Constitution,
    constitution_digest: Seq<char>,
    client: ClaimView,
    answer: CompatibilityView,
    command_surface: Seq<char>,
) -> bool {
    &&& r.constitution == c
    &&& r.constitution_digest@ == constitution_digest
    &&& r.client@ == client
    &&& r.compatibility@ == answer
    &&& r.exit == verdict(answer).0
    &&& r.verdict@ == verdict(answer).1
    &&& string_views(r.detail@) == verdict(answer).2
    &&& r.human@ == human_text(
        c,
        crate::VERSION@,
        verdict(answer).1,
        verdict(answer).2,
        constitution_digest,
        client.grammar_digest,
        command_surface,
    )
}

/// The report of `nesql constitution`, built from the engine's answers.
pub fn build_report(
    c: Constitution,
    constitution_digest: String,
    client: ClientClaim,
    compatibility: Compatibility,
    command_surface: &str,
) -> (report: Report)
    ensures
        is_report_of(report, c, constitution_digest@, client@, compatibility@, command_surface@),
        (report.exit == Exit::Unsupported) <==> (compatibility is Incompatible),
        compatibility matches Compatibility::Incompatible { reasons } ==> {
            &&& report.detail.len() == reasons.len()
            &&& forall|i: int| 0 <= i < reasons.len() ==> #[trigger] report.detail@[i]@ == reasons@[i]@
        },
{
    let (exit, verdict, detail) = verdict_of(&compatibility);
    let human = render_human(
        &c,
        crate::VERSION,
        verdict.as_str(),
        &detail,
        constitution_digest.as_str(),
        &client.grammar_digest,
        command_surface,
    );
    Report {
        exit,
        verdict,
        detail,
        compatibility,
        constitution: c,
        constitution_digest,
        client,
        human,
    }
}

/// In any report, the exit is `Unsupported` exactly when the engine refused,
/// whatever the grammar digests or the command surface; a refusal's detail is
/// the engine's reasons, in order.
pub proof fn lemma_report_exit(
    r: Report,
    c: Constitution,
    constitution_digest: Seq<char>,
    client: ClaimView,
    answer: CompatibilityView,
    command_surface: Seq<char>,
)
    requires
        is_report_of(r, c, constitution_digest, client, answer, command_surface),
    ensures
        (r.exit == Exit::Unsupported) <==> (answer is Incompatible),
        answer matches CompatibilityView::Incompatible { reasons } ==> string_views(r.detail@) == reasons,
{
    lemma_only_refusal_is_unsupported(answer);
    if let CompatibilityView::Incompatible { reasons } = answer {
        lemma_refusal_detail_is_reasons(reasons);
        assert(string_views(r.detail@) =~= reasons);
    }
}

/// The report depends on the engine's answers alone. Two reports for the same
/// answers agree in exit, verdict, detail, claim and answer whatever the
/// command-surface digest; their texts agree when that digest agrees too.
pub proof fn lemma_report_is_determined(
    r1: Report,
    r2: Report,
    c: Constitution,
    constitution_digest: Seq<char>,
    client: ClaimView,
    answer: CompatibilityView,
    surface1: Seq<char>,
    surface2: Seq<char>,
)
    requires
        is_report_of(r1, c, constitution_digest, client, answer, surface1),
        is_report_of(r2, c, constitution_digest, client, answer, surface2),
    ensures
        r1.exit == r2.exit,
        r1.verdict@ == r2.verdict@,
        string_views(r1.detail@) == string_views(r2.detail@),
        r1.client@ == r2.client@,
        r1.compatibility@ == r2.compatibility@,
        r1.constitution == r2.constitution,
        r1.constitution_digest@ == r2.constitution_digest@,
        surface1 == surface2 ==> r1.human@ == r2.human@,
{
}

/// `nesql constitution`: ask the linked engine what it guarantees, hand it this
/// build's claim to judge, and report the verdict.
///
/// The claim carries the NQL grammar digest of the engine's own constitution,
/// so a CLI and the engine it links never report a grammar mismatch: the note
/// under the grammar line always says they agree. `command_surface` is the
/// digest of the CLI's own command surface; it is printed under its own name
/// and never compared with the grammar digest, nor sent in the claim.
///
/// The reported constitution is the linked engine's: its version, formats,
/// capabilities and invariants are the engine's tables, and its grammar digest
/// is the one the claim carries. The constitution digest is the engine's
/// digest of that constitution. Everything else in the report is stated as a
/// function of these and of the engine's verdict.
pub fn run(_db: &Db, command_surface: &str) -> (report: Report)
    ensures
        engine_tables(report.constitution@),
        report.client@ == this_builds_claim(report.constitution.grammar_digest@),
        report.constitution_digest@ == constitution_digest_of(report.constitution@),
        report.compatibility@ == engine_compatibility(report.client@),
        is_report_of(
            report,
            report.constitution,
            report.constitution_digest@,
            report.client@,
            report.compatibility@,
            command_surface@,
        ),
        report.exit == Exit::Unsupported ==> report.detail.len() > 0,
        (report.exit == Exit::Unsupported) <==> (report.compatibility is Incompatible),
        report.human@ == human_head(
            report.constitution,
            crate::VERSION@,
            report.verdict@,
            report.constitution_digest@,
        ) + grammar_note(true) + human_tail(report.constitution, string_views(report.detail@), command_surface@),
{
    let c = engine_constitution();
    let client = claim_with(c.grammar_digest.clone());
    let compatibility = engine_check(&client);
    let constitution_digest = engine_digest_of(&c);
    let report = build_report(c, constitution_digest, client, compatibility, command_surface);
    proof {
        lemma_human_text_parts(
            report.constitution,
            crate::VERSION@,
            report.verdict@,
            string_views(report.detail@),
            report.constitution_digest@,
            report.client.grammar_digest@,
            command_surface@,
        );
    }
    report
}

} // verus!
