//! Structured search predicates, their compilation into one parameterised
//! shard query, and the merge of per-shard results.
use vstd::prelude::*;
use crate::scan::{is_image_file, is_image_path};
use crate::text::{decimal, push_decimal, text_eq, upper_of, uppercase};

verus! {

/// How a predicate joins the ones before it.
#[derive(Clone, Copy, Debug, PartialEq, Eq, Structural)]
pub enum Logic {
    And,
    Or,
}

/// The record attribute a predicate tests.
#[derive(Clone, Copy, Debug, PartialEq, Eq, Structural)]
pub enum Field {
    /// Display name of any player listed in the embedded metadata.
    Player,
    /// World name held in the embedded metadata.
    World,
    /// Stored file-creation timestamp.
    CreatedAt,
    /// Containment in the file path (the operator is not used).
    FilePath,
}

/// Comparison applied between the field and the bound value.
#[derive(Clone, Copy, Debug, PartialEq, Eq, Structural)]
pub enum Operator {
    Eq,
    Ne,
    Gt,
    Ge,
    Lt,
    Le,
    Like,
}

/// One search condition.
#[derive(Clone, Debug)]
pub struct Predicate {
    pub logic: Logic,
    pub field: Field,
    pub operator: Operator,
    pub value: String,
}

/// A predicate as callers describe it: each part optional and untyped.
#[derive(Clone, Debug)]
pub struct PredicateInput {
    pub logic: Option<String>,
    pub field: Option<String>,
    pub operator: Option<String>,
    pub value: Option<String>,
}

/// Query text with the values bound to its placeholders, in order.
#[derive(Clone, Debug)]
pub struct CompiledQuery {
    pub text: String,
    pub params: Vec<String>,
}

// ---------------------------------------------------------------- parsing

/// Connector named by an upper-cased word; anything but `OR` means `AND`.
pub open spec fn logic_of_word(upper: Seq<char>) -> Logic {
    if upper == "OR"@ { Logic::Or } else { Logic::And }
}

pub open spec fn spec_logic(raw: Option<String>) -> Logic {
    match raw {
        Some(s) => logic_of_word(upper_of(s@)),
        None => Logic::And,
    }
}

/// Field named by a word (matched as written); unknown words mean the file path.
pub open spec fn field_of_word(w: Seq<char>) -> Field {
    if w == "player"@ {
        Field::Player
    } else if w == "world"@ {
        Field::World
    } else if w == "created_at"@ {
        Field::CreatedAt
    } else {
        Field::FilePath
    }
}

pub open spec fn spec_field(raw: Option<String>) -> Field {
    match raw {
        Some(s) => field_of_word(s@),
        None => Field::FilePath,
    }
}

/// Operator named by an upper-cased word; unknown words mean equality.
pub open spec fn operator_of_word(upper: Seq<char>) -> Operator {
    if upper == "NE"@ {
        Operator::Ne
    } else if upper == "GT"@ {
        Operator::Gt
    } else if upper == "GE"@ {
        Operator::Ge
    } else if upper == "LT"@ {
        Operator::Lt
    } else if upper == "LE"@ {
        Operator::Le
    } else if upper == "LIKE"@ {
        Operator::Like
    } else {
        Operator::Eq
    }
}

pub open spec fn spec_operator(raw: Option<String>) -> Operator {
    match raw {
        Some(s) => operator_of_word(upper_of(s@)),
        None => Operator::Eq,
    }
}

pub open spec fn spec_value(raw: Option<String>) -> Seq<char> {
    match raw {
        Some(s) => s@,
        None => Seq::empty(),
    }
}

/// Chooses the connector from an already upper-cased word.
pub fn logic_from_upper(upper: &str) -> (r: Logic)
    ensures
        r == logic_of_word(upper@),
{
    if text_eq(upper, "OR") { Logic::Or } else { Logic::And }
}

/// Chooses the operator from an already upper-cased word.
pub fn operator_from_upper(upper: &str) -> (r: Operator)
    ensures
        r == operator_of_word(upper@),
{
    if text_eq(upper, "NE") {
        Operator::Ne
    } else if text_eq(upper, "GT") {
        Operator::Gt
    } else if text_eq(upper, "GE") {
        Operator::Ge
    } else if text_eq(upper, "LT") {
        Operator::Lt
    } else if text_eq(upper, "LE") {
        Operator::Le
    } else if text_eq(upper, "LIKE") {
        Operator::Like
    } else {
        Operator::Eq
    }
}

/// Chooses the field from its word.
pub fn field_from_word(word: &str) -> (r: Field)
    ensures
        r == field_of_word(word@),
{
    if text_eq(word, "player") {
        Field::Player
    } else if text_eq(word, "world") {
        Field::World
    } else if text_eq(word, "created_at") {
        Field::CreatedAt
    } else {
        Field::FilePath
    }
}

/// Reads one predicate from its untyped description.
pub fn parse_predicate(input: &PredicateInput) -> (r: Predicate)
    ensures
        r.logic == spec_logic(input.logic),
        r.field == spec_field(input.field),
        r.operator == spec_operator(input.operator),
        r.value@ == spec_value(input.value),
{
    let logic = match &input.logic {
        Some(s) => {
            let up = uppercase(s.as_str());
            logic_from_upper(up.as_str())
        },
        None => Logic::And,
    };
    let field = match &input.field {
        Some(s) => field_from_word(s.as_str()),
        None => Field::FilePath,
    };
    let operator = match &input.operator {
        Some(s) => {
            let up = uppercase(s.as_str());
            operator_from_upper(up.as_str())
        },
        None => Operator::Eq,
    };
    let value = match &input.value {
        Some(s) => s.clone(),
        None => String::new(),
    };
    Predicate { logic, field, operator, value }
}

// ------------------------------------------------------------ compilation

pub open spec fn op_text(o: Operator) -> Seq<char> {
    match o {
        Operator::Eq => "="@,
        Operator::Ne => "!="@,
        Operator::Gt => ">"@,
        Operator::Ge => ">="@,
        Operator::Lt => "<"@,
        Operator::Le => "<="@,
        Operator::Like => "LIKE"@,
    }
}

pub open spec fn logic_text(l: Logic) -> Seq<char> {
    match l {
        Logic::And => "AND"@,
        Logic::Or => "OR"@,
    }
}

/// Name of the `n`-th player element alias in a query.
pub open spec fn player_alias(n: nat) -> Seq<char> {
    "player"@ + decimal(n)
}

/// Query fragment for one predicate; `n` numbers the player aliases.
pub open spec fn segment_text(field: Field, op: Operator, n: nat) -> Seq<char> {
    match field {
        Field::Player => "EXISTS (SELECT 1 FROM json_each(metadata_json, '$.players') AS "@
            + player_alias(n) + " WHERE json_extract("@ + player_alias(n)
            + ".value, '$.displayName') "@ + op_text(op) + " ?)"@,
        Field::World => "JSON_EXTRACT(metadata_json, '$.world.name') "@ + op_text(op) + " ?"@,
        Field::CreatedAt => "file_created_at "@ + op_text(op) + " ?"@,
        Field::FilePath => "file_path LIKE ?"@,
    }
}

/// Value bound for a predicate: wrapped in wildcards for `LIKE` on metadata fields.
pub open spec fn bound_value(field: Field, op: Operator, v: Seq<char>) -> Seq<char> {
    if (field == Field::Player || field == Field::World) && op == Operator::Like {
        "%"@ + v + "%"@
    } else {
        v
    }
}

/// Fragments, bound values and player count after compiling `ps` in order;
/// predicates with an empty value are dropped.
pub open spec fn compile_prefix(ps: Seq<Predicate>) -> (Seq<Seq<char>>, Seq<Seq<char>>, nat)
    decreases ps.len(),
{
    if ps.len() == 0 {
        (Seq::empty(), Seq::empty(), 0)
    } else {
        let prev = compile_prefix(ps.drop_last());
        let p = ps.last();
        if p.value@.len() == 0 {
            prev
        } else {
            let players = if p.field == Field::Player { prev.2 + 1 } else { prev.2 };
            let seg = segment_text(p.field, p.operator, players);
            let seg = if prev.0.len() == 0 { seg } else { logic_text(p.logic) + " "@ + seg };
            (prev.0.push(seg), prev.1.push(bound_value(p.field, p.operator, p.value@)), players)
        }
    }
}

/// Fragments separated by single spaces.
pub open spec fn joined(segs: Seq<Seq<char>>) -> Seq<char>
    decreases segs.len(),
{
    if segs.len() == 0 {
        Seq::empty()
    } else if segs.len() == 1 {
        segs[0]
    } else {
        joined(segs.drop_last()) + " "@ + segs.last()
    }
}

/// Selection of every record whose metadata is valid JSON.
pub open spec fn base_query() -> Seq<char> {
    "SELECT DISTINCT file_path, thumbnail FROM images WHERE 1=1 AND json_valid(metadata_json) = 1"@
}

/// The full query text for a predicate list.
pub open spec fn query_text(ps: Seq<Predicate>) -> Seq<char> {
    let segs = compile_prefix(ps).0;
    if segs.len() == 0 {
        base_query()
    } else {
        base_query() + " AND ("@ + joined(segs) + ")"@
    }
}

/// The values bound to the placeholders of `query_text(ps)`, in order.
pub open spec fn query_params(ps: Seq<Predicate>) -> Seq<Seq<char>> {
    compile_prefix(ps).1
}

pub open spec fn texts(v: Seq<String>) -> Seq<Seq<char>> {
    v.map_values(|s: String| s@)
}

fn op_str(o: Operator) -> (r: &'static str)
    ensures
        r@ == op_text(o),
{
    match o {
        Operator::Eq => "=",
        Operator::Ne => "!=",
        Operator::Gt => ">",
        Operator::Ge => ">=",
        Operator::Lt => "<",
        Operator::Le => "<=",
        Operator::Like => "LIKE",
    }
}

fn logic_str(l: Logic) -> (r: &'static str)
    ensures
        r@ == logic_text(l),
{
    match l {
        Logic::And => "AND",
        Logic::Or => "OR",
    }
}

/// Builds the query fragment of one predicate.
pub fn segment_for(field: Field, op: Operator, n: u64) -> (r: String)
    ensures
        r@ == segment_text(field, op, n as nat),
{
    match field {
        Field::Player => {
            let mut s = String::from_str("EXISTS (SELECT 1 FROM json_each(metadata_json, '$.players') AS ");
            s.append("player");
            push_decimal(&mut s, n);
            s.append(" WHERE json_extract(");
            s.append("player");
            push_decimal(&mut s, n);
            s.append(".value, '$.displayName') ");
            s.append(op_str(op));
            s.append(" ?)");
            assert(s@ =~= segment_text(field, op, n as nat));
            s
        },
        Field::World => {
            let mut s = String::from_str("JSON_EXTRACT(metadata_json, '$.world.name') ");
            s.append(op_str(op));
            s.append(" ?");
            s
        },
        Field::CreatedAt => {
            let mut s = String::from_str("file_created_at ");
            s.append(op_str(op));
            s.append(" ?");
            s
        },
        Field::FilePath => String::from_str("file_path LIKE ?"),
    }
}

/// Builds the value bound for one predicate.
pub fn bound_value_for(field: Field, op: Operator, v: &String) -> (r: String)
    ensures
        r@ == bound_value(field, op, v@),
{
    let meta = match field {
        Field::Player => true,
        Field::World => true,
        _ => false,
    };
    let like = match op {
        Operator::Like => true,
        _ => false,
    };
    if meta && like {
        let mut s = String::from_str("%");
        s.append(v.as_str());
        s.append("%");
        s
    } else {
        v.clone()
    }
}

/// Compiles predicates into one query, reusable unchanged on every shard.
pub fn compile(preds: &Vec<Predicate>) -> (r: CompiledQuery)
    requires
        preds@.len() < u64::MAX,
    ensures
        r.text@ == query_text(preds@),
        texts(r.params@) == query_params(preds@),
{
    let mut body = String::new();
    let mut params: Vec<String> = Vec::new();
    let mut players: u64 = 0;
    let mut count: usize = 0;
    let ghost mut segs: Seq<Seq<char>> = Seq::empty();
    let mut i: usize = 0;
    while i < preds.len()
        invariant
            i <= preds@.len(),
            preds@.len() < u64::MAX,
            compile_prefix(preds@.subrange(0, i as int)) == (segs, texts(params@), players as nat),
            body@ == joined(segs),
            count == segs.len(),
            players <= i,
            count <= i,
        decreases preds@.len() - i,
    {
        let p = &preds[i];
        proof {
            assert(preds@.subrange(0, i + 1).drop_last() =~= preds@.subrange(0, i as int));
        }
        if p.value.unicode_len() > 0 {
            let is_player = match p.field {
                Field::Player => true,
                _ => false,
            };
            if is_player {
                players = players + 1;
            }
            let seg = segment_for(p.field, p.operator, players);
            let ghost seg_v: Seq<char>;
            if count == 0 {
                body = seg;
                proof { seg_v = segment_text(p.field, p.operator, players as nat); }
            } else {
                body.append(" ");
                body.append(logic_str(p.logic));
                body.append(" ");
                body.append(seg.as_str());
                proof { seg_v = logic_text(p.logic) + " "@ + segment_text(p.field, p.operator, players as nat); }
            }
            let v = bound_value_for(p.field, p.operator, &p.value);
            params.push(v);
            proof {
                let old_segs = segs;
                segs = segs.push(seg_v);
                assert(segs.drop_last() =~= old_segs);
                assert(body@ =~= joined(segs));
            }
            count = count + 1;
        }
        i = i + 1;
        proof {
            assert(texts(params@) =~= compile_prefix(preds@.subrange(0, i as int)).1);
        }
    }
    assert(preds@.subrange(0, preds@.len() as int) =~= preds@);
    let mut text = String::from_str("SELECT DISTINCT file_path, thumbnail FROM images WHERE 1=1 AND json_valid(metadata_json) = 1");
    if count > 0 {
        text.append(" AND (");
        text.append(body.as_str());
        text.append(")");
    }
    CompiledQuery { text, params }
}


/// Reads every predicate description, then compiles them.
pub fn compile_inputs(inputs: &Vec<PredicateInput>) -> (r: CompiledQuery)
    requires
        inputs@.len() < u64::MAX,
    ensures
        exists|ps: Seq<Predicate>|
            #![trigger query_text(ps)]
            ps.len() == inputs@.len()
            && (forall|k: int| #![trigger ps[k]] 0 <= k < ps.len() ==> {
                &&& ps[k].logic == spec_logic(inputs@[k].logic)
                &&& ps[k].field == spec_field(inputs@[k].field)
                &&& ps[k].operator == spec_operator(inputs@[k].operator)
                &&& ps[k].value@ == spec_value(inputs@[k].value)
            })
            && r.text@ == query_text(ps)
            && texts(r.params@) == query_params(ps),
{
    let mut preds: Vec<Predicate> = Vec::new();
    let mut i: usize = 0;
    while i < inputs.len()
        invariant
            i <= inputs@.len(),
            preds@.len() == i,
            forall|k: int| #![trigger preds@[k]] 0 <= k < i ==> {
                &&& preds@[k].logic == spec_logic(inputs@[k].logic)
                &&& preds@[k].field == spec_field(inputs@[k].field)
                &&& preds@[k].operator == spec_operator(inputs@[k].operator)
                &&& preds@[k].value@ == spec_value(inputs@[k].value)
            },
        decreases inputs@.len() - i,
    {
        let p = parse_predicate(&inputs[i]);
        preds.push(p);
        i = i + 1;
    }
    compile(&preds)
}

// ------------------------------------------------------------ aggregation

/// One row a shard returned: a file path and its stored base64 thumbnail.
#[derive(Debug)]
pub struct ShardRow {
    pub file_path: String,
    pub thumbnail: String,
}

/// What one shard contributed to a search; `None` when its query failed.
#[derive(Debug)]
pub struct ShardResult {
    pub stable_id: String,
    pub rows: Option<Vec<ShardRow>>,
}

/// A search or thumbnail result: the file, its thumbnail as a data URL, and
/// the stable id of the root whose shard holds it.
#[derive(Debug)]
pub struct SearchHit {
    pub file_path: String,
    pub data_url: String,
    pub stable_id: String,
}

/// A base64 PNG thumbnail as an inline data URL.
pub open spec fn data_url_text(b64: Seq<char>) -> Seq<char> {
    "data:image/png;base64,"@ + b64
}

pub open spec fn hit_view(h: SearchHit) -> (Seq<char>, Seq<char>, Seq<char>) {
    (h.file_path@, h.data_url@, h.stable_id@)
}

pub open spec fn hits_view(hs: Seq<SearchHit>) -> Seq<(Seq<char>, Seq<char>, Seq<char>)> {
    hs.map_values(|h: SearchHit| hit_view(h))
}

pub open spec fn row_hit(row: ShardRow, stable_id: Seq<char>) -> (Seq<char>, Seq<char>, Seq<char>) {
    (row.file_path@, data_url_text(row.thumbnail@), stable_id)
}

/// The hits one shard contributes, in its own order.
pub open spec fn shard_hits(r: ShardResult) -> Seq<(Seq<char>, Seq<char>, Seq<char>)> {
    match r.rows {
        Some(rows) => rows@.map_values(|row: ShardRow| row_hit(row, r.stable_id@)),
        None => Seq::empty(),
    }
}

/// Hits of all shards, concatenated in shard order; failed shards add nothing.
pub open spec fn merged_hits(rs: Seq<ShardResult>) -> Seq<(Seq<char>, Seq<char>, Seq<char>)>
    decreases rs.len(),
{
    if rs.len() == 0 {
        Seq::empty()
    } else {
        merged_hits(rs.drop_last()) + shard_hits(rs.last())
    }
}

/// Wraps a stored base64 thumbnail into a data URL.
pub fn thumbnail_data_url(thumbnail: &str) -> (r: String)
    ensures
        r@ == data_url_text(thumbnail@),
{
    let mut s = String::from_str("data:image/png;base64,");
    s.append(thumbnail);
    s
}

/// Concatenates the per-shard results, tagging each row with its shard.
pub fn merge_results(results: &Vec<ShardResult>) -> (r: Vec<SearchHit>)
    ensures
        hits_view(r@) == merged_hits(results@),
{
    let mut out: Vec<SearchHit> = Vec::new();
    let mut i: usize = 0;
    while i < results.len()
        invariant
            i <= results@.len(),
            hits_view(out@) == merged_hits(results@.subrange(0, i as int)),
        decreases results@.len() - i,
    {
        let res = &results[i];
        proof {
            assert(results@.subrange(0, i + 1).drop_last() =~= results@.subrange(0, i as int));
        }
        let ghost before = hits_view(out@);
        match &res.rows {
            Some(rows) => {
                let mut j: usize = 0;
                while j < rows.len()
                    invariant
                        j <= rows@.len(),
                        res.rows == Some(*rows),
                        hits_view(out@) == before + rows@.subrange(0, j as int).map_values(
                            |row: ShardRow| row_hit(row, res.stable_id@),
                        ),
                    decreases rows@.len() - j,
                {
                    let row = &rows[j];
                    let hit = SearchHit {
                        file_path: row.file_path.clone(),
                        data_url: thumbnail_data_url(row.thumbnail.as_str()),
                        stable_id: res.stable_id.clone(),
                    };
                    let ghost mid = out@;
                    out.push(hit);
                    proof {
                        assert(hits_view(out@) =~= hits_view(mid).push(hit_view(hit)));
                        assert(rows@.subrange(0, j + 1).map_values(
                            |row: ShardRow| row_hit(row, res.stable_id@),
                        ) =~= rows@.subrange(0, j as int).map_values(
                            |row: ShardRow| row_hit(row, res.stable_id@),
                        ).push(row_hit(rows@[j as int], res.stable_id@)));
                    }
                    j = j + 1;
                }
                proof {
                    assert(rows@.subrange(0, j as int) =~= rows@);
                }
            },
            None => {
                assert(shard_hits(*res) =~= Seq::empty());
                assert(hits_view(out@) =~= before + shard_hits(*res));
            },
        }
        i = i + 1;
    }
    assert(results@.subrange(0, results@.len() as int) =~= results@);
    out
}


/// A stored-thumbnail lookup for one requested file.
#[derive(Debug)]
pub struct ThumbnailLookup {
    pub file_path: String,
    pub stable_id: String,
    /// The stored base64 thumbnail, when the shard has a record for the file.
    pub thumbnail: Option<String>,
}

/// The hits of the lookups that name an image file with a stored thumbnail.
pub open spec fn thumbnail_hits(ls: Seq<ThumbnailLookup>) -> Seq<(Seq<char>, Seq<char>, Seq<char>)>
    decreases ls.len(),
{
    if ls.len() == 0 {
        Seq::empty()
    } else {
        let prev = thumbnail_hits(ls.drop_last());
        let l = ls.last();
        match l.thumbnail {
            Some(t) => if is_image_path(l.file_path@) {
                prev.push((l.file_path@, data_url_text(t@), l.stable_id@))
            } else {
                prev
            },
            None => prev,
        }
    }
}

/// Answers a batch of thumbnail requests, in request order.
pub fn collect_thumbnails(lookups: &Vec<ThumbnailLookup>) -> (r: Vec<SearchHit>)
    ensures
        hits_view(r@) == thumbnail_hits(lookups@),
{
    let mut out: Vec<SearchHit> = Vec::new();
    let mut i: usize = 0;
    while i < lookups.len()
        invariant
            i <= lookups@.len(),
            hits_view(out@) == thumbnail_hits(lookups@.subrange(0, i as int)),
        decreases lookups@.len() - i,
    {
        let l = &lookups[i];
        proof {
            assert(lookups@.subrange(0, i + 1).drop_last() =~= lookups@.subrange(0, i as int));
        }
        match &l.thumbnail {
            Some(t) => {
                if is_image_file(l.file_path.as_str()) {
                    let hit = SearchHit {
                        file_path: l.file_path.clone(),
                        data_url: thumbnail_data_url(t.as_str()),
                        stable_id: l.stable_id.clone(),
                    };
                    let ghost mid = out@;
                    out.push(hit);
                    assert(hits_view(out@) =~= hits_view(mid).push(hit_view(hit)));
                }
            },
            None => {},
        }
        i = i + 1;
    }
    assert(lookups@.subrange(0, lookups@.len() as int) =~= lookups@);
    out
}

/// Every compiled query keeps the base selection, so a record whose metadata
/// is not valid JSON is never matched, whatever the predicates.
pub proof fn lemma_query_requires_valid_metadata(ps: Seq<Predicate>)
    ensures
        query_text(ps).subrange(0, base_query().len() as int) == base_query(),
{
    assert(query_text(ps).subrange(0, base_query().len() as int) =~= base_query());
}

} // verus!
