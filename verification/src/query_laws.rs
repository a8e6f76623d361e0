//! The parameters of the named statements, in the order in which their values are
//! bound.
use vstd::prelude::*;

use crate::named::{
    name_end, names_from, parameter_name, parameter_names, starts_parameter, with_name,
};
use crate::queries;
use crate::text::identifier_char;

verus! {

/// No parameter starts from position `i` to before `j`.
spec fn is_plain(s: Seq<char>, i: int, j: int) -> bool
    decreases j - i,
{
    if j - i <= 1 {
        i < j ==> s[i] != ':' || !starts_parameter(s, i)
    } else {
        is_plain(s, i, i + (j - i) / 2) && is_plain(s, i + (j - i) / 2, j)
    }
}

proof fn lemma_plain(s: Seq<char>, i: int, j: int, known: Seq<Seq<char>>)
    requires
        0 <= i <= j <= s.len(),
        is_plain(s, i, j),
    ensures
        names_from(s, i, known) == names_from(s, j, known),
    decreases j - i,
{
    if j - i > 1 {
        lemma_plain(s, i, i + (j - i) / 2, known);
        lemma_plain(s, i + (j - i) / 2, j, known);
    }
}

/// The first `n` characters of the word are identifier characters, and stand in the text
/// from position `i` on.
spec fn spells(s: Seq<char>, i: int, word: Seq<char>, n: int) -> bool
    decreases n,
{
    n <= 0 || (identifier_char(word[n - 1]) && s[i + n - 1] == word[n - 1] && spells(
        s,
        i,
        word,
        n - 1,
    ))
}

proof fn lemma_spells(s: Seq<char>, i: int, word: Seq<char>, n: int, k: int)
    requires
        spells(s, i, word, n),
        0 <= k < n,
    ensures
        identifier_char(word[k]),
        s[i + k] == word[k],
    decreases n,
{
    if k < n - 1 {
        lemma_spells(s, i, word, n - 1, k);
    }
}

proof fn lemma_end_of_word(s: Seq<char>, i: int, word: Seq<char>, k: int)
    requires
        0 <= i,
        0 <= k <= word.len(),
        i + word.len() <= s.len(),
        spells(s, i, word, word.len() as int),
        i + word.len() < s.len() ==> !identifier_char(s[i + word.len()]),
    ensures
        name_end(s, i + k) == i + word.len(),
    decreases word.len() - k,
{
    if k < word.len() {
        lemma_spells(s, i, word, word.len() as int, k);
        lemma_end_of_word(s, i, word, k + 1);
    }
}

/// The parameter of that name stands at position `i`.
spec fn stands_at(s: Seq<char>, i: int, word: Seq<char>) -> bool {
    &&& 0 <= i
    &&& word.len() > 0
    &&& i + 1 + word.len() <= s.len()
    &&& s[i] == ':'
    &&& i == 0 || s[i - 1] != ':'
    &&& spells(s, i + 1, word, word.len() as int)
    &&& i + 1 + word.len() < s.len() ==> !identifier_char(s[i + 1 + word.len()])
}

/// A text goes on with plain text up to position `at`, and there with a parameter. The
/// names up to its end are those before it and its own.
proof fn lemma_next(s: Seq<char>, i: int, at: int, word: Seq<char>, known: Seq<Seq<char>>) -> (names:
    Seq<Seq<char>>)
    requires
        0 <= i <= at,
        stands_at(s, at, word),
        is_plain(s, i, at),
    ensures
        names == with_name(known, word),
        names_from(s, i, known) == names_from(s, at + 1 + word.len(), names),
{
    lemma_plain(s, i, at, known);
    lemma_parameter(s, at, word, known);
    with_name(known, word)
}

/// A text ends with plain text: there are no more names.
proof fn lemma_rest(s: Seq<char>, i: int, end: int, known: Seq<Seq<char>>)
    requires
        0 <= i <= end == s.len(),
        is_plain(s, i, end),
    ensures
        names_from(s, i, known) == known,
{
    lemma_plain(s, i, end, known);
}

proof fn lemma_parameter(s: Seq<char>, i: int, word: Seq<char>, known: Seq<Seq<char>>)
    requires
        stands_at(s, i, word),
    ensures
        names_from(s, i, known) == names_from(s, i + 1 + word.len(), with_name(known, word)),
{
    lemma_spells(s, i + 1, word, word.len() as int, 0);
    lemma_end_of_word(s, i + 1, word, 0);
    assert(starts_parameter(s, i));
    assert(parameter_name(s, i) == word) by {
        assert forall|k: int| 0 <= k < word.len() implies s[i + 1 + k] == word[k] by {
            lemma_spells(s, i + 1, word, word.len() as int, k);
        }
        assert(s.subrange(i + 1, i + 1 + word.len()) =~= word);
    }
}

/// How long the names are, and what they start with. No two names of one statement
/// agree in both.
proof fn lemma_names()
    ensures
        "q"@.len() == 1 && "q"@[0] == 'q',
        "id"@.len() == 2 && "id"@[0] == 'i',
        "now"@.len() == 3 && "now"@[0] == 'n',
        "uuid"@.len() == 4 && "uuid"@[0] == 'u',
        "limit"@.len() == 5 && "limit"@[0] == 'l',
        "query"@.len() == 5 && "query"@[0] == 'q',
        "scope"@.len() == 5 && "scope"@[0] == 's',
        "title"@.len() == 5 && "title"@[0] == 't',
        "offset"@.len() == 6 && "offset"@[0] == 'o',
        "prefix"@.len() == 6 && "prefix"@[0] == 'p',
        "status"@.len() == 6 && "status"@[0] == 's',
        "surface"@.len() == 7 && "surface"@[0] == 's',
        "user_id"@.len() == 7 && "user_id"@[0] == 'u',
        "index_id"@.len() == 8 && "index_id"@[0] == 'i',
        "job_type"@.len() == 8 && "job_type"@[0] == 'j',
        "priority"@.len() == 8 && "priority"@[0] == 'p',
        "body_text"@.len() == 9 && "body_text"@[0] == 'b',
        "group_key"@.len() == 9 && "group_key"@[0] == 'g',
        "index_key"@.len() == 9 && "index_key"@[0] == 'i',
        "placement"@.len() == 9 && "placement"@[0] == 'p',
        "rule_json"@.len() == 9 && "rule_json"@[0] == 'r',
        "tenant_id"@.len() == 9 && "tenant_id"@[0] == 't',
        "capability"@.len() == 10 && "capability"@[0] == 'c',
        "data_scope"@.len() == 10 && "data_scope"@[0] == 'd',
        "deleted_by"@.len() == 10 && "deleted_by"@[0] == 'd',
        "event_type"@.len() == 10 && "event_type"@[0] == 'e',
        "request_id"@.len() == 10 && "request_id"@[0] == 'r',
        "source_ref"@.len() == 10 && "source_ref"@[0] == 's',
        "started_at"@.len() == 10 && "started_at"@[0] == 's',
        "token_json"@.len() == 10 && "token_json"@[0] == 't',
        "active_from"@.len() == 11 && "active_from"@[0] == 'a',
        "config_json"@.len() == 11 && "config_json"@[0] == 'c',
        "description"@.len() == 11 && "description"@[0] == 'd',
        "document_id"@.len() == 11 && "document_id"@[0] == 'd',
        "finished_at"@.len() == 11 && "finished_at"@[0] == 'f',
        "group_title"@.len() == 11 && "group_title"@[0] == 'g',
        "active_until"@.len() == 12 && "active_until"@[0] == 'a',
        "document_ids"@.len() == 12 && "document_ids"@[0] == 'd',
        "keyword_text"@.len() == 12 && "keyword_text"@[0] == 'k',
        "payload_json"@.len() == 12 && "payload_json"@[0] == 'p',
        "promotion_id"@.len() == 12 && "promotion_id"@[0] == 'p',
        "result_count"@.len() == 12 && "result_count"@[0] == 'r',
        "error_summary"@.len() == 13 && "error_summary"@[0] == 'e',
        "metadata_json"@.len() == 13 && "metadata_json"@[0] == 'm',
        "promotion_key"@.len() == 13 && "promotion_key"@[0] == 'p',
        "embedding_json"@.len() == 14 && "embedding_json"@[0] == 'e',
        "organization_id"@.len() == 15 && "organization_id"@[0] == 'o',
        "query_embedding"@.len() == 15 && "query_embedding"@[0] == 'q',
        "result_position"@.len() == 15 && "result_position"@[0] == 'r',
        "suggestion_text"@.len() == 15 && "suggestion_text"@[0] == 's',
{
    reveal_strlit("q");
    reveal_strlit("id");
    reveal_strlit("now");
    reveal_strlit("uuid");
    reveal_strlit("limit");
    reveal_strlit("query");
    reveal_strlit("scope");
    reveal_strlit("title");
    reveal_strlit("offset");
    reveal_strlit("prefix");
    reveal_strlit("status");
    reveal_strlit("surface");
    reveal_strlit("user_id");
    reveal_strlit("index_id");
    reveal_strlit("job_type");
    reveal_strlit("priority");
    reveal_strlit("body_text");
    reveal_strlit("group_key");
    reveal_strlit("index_key");
    reveal_strlit("placement");
    reveal_strlit("rule_json");
    reveal_strlit("tenant_id");
    reveal_strlit("capability");
    reveal_strlit("data_scope");
    reveal_strlit("deleted_by");
    reveal_strlit("event_type");
    reveal_strlit("request_id");
    reveal_strlit("source_ref");
    reveal_strlit("started_at");
    reveal_strlit("token_json");
    reveal_strlit("active_from");
    reveal_strlit("config_json");
    reveal_strlit("description");
    reveal_strlit("document_id");
    reveal_strlit("finished_at");
    reveal_strlit("group_title");
    reveal_strlit("active_until");
    reveal_strlit("document_ids");
    reveal_strlit("keyword_text");
    reveal_strlit("payload_json");
    reveal_strlit("promotion_id");
    reveal_strlit("result_count");
    reveal_strlit("error_summary");
    reveal_strlit("metadata_json");
    reveal_strlit("promotion_key");
    reveal_strlit("embedding_json");
    reveal_strlit("organization_id");
    reveal_strlit("query_embedding");
    reveal_strlit("result_position");
    reveal_strlit("suggestion_text");
}

/// The parameters of [`queries::INDEX_LIST_INDEXES`].
#[verifier::rlimit(60)]
pub proof fn lemma_index_list_indexes()
    ensures
        parameter_names(queries::INDEX_LIST_INDEXES@) == seq!["tenant_id"@, "organization_id"@],
{
    reveal_strlit(
        "SELECT id, uuid, tenant_id, organization_id, index_key, title, description, status, \
        data_scope, config_json, created_at, updated_at, version, deleted_at, deleted_by FROM \
        search_index WHERE tenant_id = :tenant_id AND organization_id = :organization_id AND \
        deleted_at IS NULL ORDER BY updated_at DESC",
    );
    reveal_strlit("tenant_id");
    reveal_strlit("organization_id");
    reveal_with_fuel(is_plain, 12);
    reveal_with_fuel(spells, 18);
    lemma_names();
    let s = queries::INDEX_LIST_INDEXES@;
    let known = Seq::<Seq<char>>::empty();
    let known = lemma_next(s, 0, 201, "tenant_id"@, known);
    let known = lemma_next(s, 211, 234, "organization_id"@, known);
    lemma_rest(s, 250, 298, known);
}

/// The parameters of [`queries::INDEX_GET_BY_KEY`].
#[verifier::rlimit(60)]
pub proof fn lemma_index_get_by_key()
    ensures
        parameter_names(queries::INDEX_GET_BY_KEY@) == seq![
            "tenant_id"@,
            "organization_id"@,
            "index_key"@,
        ],
{
    reveal_strlit(
        "SELECT id, uuid, tenant_id, organization_id, index_key, title, description, status, \
        data_scope, config_json, created_at, updated_at, version, deleted_at, deleted_by FROM \
        search_index WHERE tenant_id = :tenant_id AND organization_id = :organization_id AND \
        index_key = :index_key AND deleted_at IS NULL",
    );
    reveal_strlit("tenant_id");
    reveal_strlit("organization_id");
    reveal_strlit("index_key");
    reveal_with_fuel(is_plain, 12);
    reveal_with_fuel(spells, 18);
    lemma_names();
    let s = queries::INDEX_GET_BY_KEY@;
    let known = Seq::<Seq<char>>::empty();
    let known = lemma_next(s, 0, 201, "tenant_id"@, known);
    let known = lemma_next(s, 211, 234, "organization_id"@, known);
    let known = lemma_next(s, 250, 267, "index_key"@, known);
    lemma_rest(s, 277, 300, known);
}

/// The parameters of [`queries::INDEX_CREATE`].
#[verifier::rlimit(60)]
pub proof fn lemma_index_create()
    ensures
        parameter_names(queries::INDEX_CREATE@) == seq![
            "id"@,
            "uuid"@,
            "tenant_id"@,
            "organization_id"@,
            "index_key"@,
            "title"@,
            "description"@,
            "config_json"@,
        ],
{
    reveal_strlit(
        "INSERT INTO search_index (id, uuid, tenant_id, organization_id, index_key, title, \
        description, status, data_scope, config_json, version) VALUES (:id, :uuid, :tenant_id, \
        :organization_id, :index_key, :title, :description, 1, 0, :config_json, 0) RETURNING \
        id, uuid, tenant_id, organization_id, index_key, title, description, status, \
        data_scope, config_json, created_at, updated_at, version, deleted_at, deleted_by",
    );
    reveal_strlit("id");
    reveal_strlit("uuid");
    reveal_strlit("tenant_id");
    reveal_strlit("organization_id");
    reveal_strlit("index_key");
    reveal_strlit("title");
    reveal_strlit("description");
    reveal_strlit("config_json");
    reveal_with_fuel(is_plain, 12);
    reveal_with_fuel(spells, 18);
    lemma_names();
    let s = queries::INDEX_CREATE@;
    let known = Seq::<Seq<char>>::empty();
    let known = lemma_next(s, 0, 145, "id"@, known);
    let known = lemma_next(s, 148, 150, "uuid"@, known);
    let known = lemma_next(s, 155, 157, "tenant_id"@, known);
    let known = lemma_next(s, 167, 169, "organization_id"@, known);
    let known = lemma_next(s, 185, 187, "index_key"@, known);
    let known = lemma_next(s, 197, 199, "title"@, known);
    let known = lemma_next(s, 205, 207, "description"@, known);
    let known = lemma_next(s, 219, 227, "config_json"@, known);
    lemma_rest(s, 239, 411, known);
}

/// The parameters of [`queries::INDEX_UPDATE`].
#[verifier::rlimit(60)]
pub proof fn lemma_index_update()
    ensures
        parameter_names(queries::INDEX_UPDATE@) == seq![
            "title"@,
            "description"@,
            "status"@,
            "config_json"@,
            "id"@,
            "tenant_id"@,
            "organization_id"@,
        ],
{
    reveal_strlit(
        "UPDATE search_index SET title = :title, description = :description, status = :status, \
        config_json = :config_json, version = version + 1, updated_at = NOW() WHERE id = :id \
        AND tenant_id = :tenant_id AND organization_id = :organization_id AND deleted_at IS \
        NULL RETURNING id, uuid, tenant_id, organization_id, index_key, title, description, \
        status, data_scope, config_json, created_at, updated_at, version, deleted_at, \
        deleted_by",
    );
    reveal_strlit("title");
    reveal_strlit("description");
    reveal_strlit("status");
    reveal_strlit("config_json");
    reveal_strlit("id");
    reveal_strlit("tenant_id");
    reveal_strlit("organization_id");
    reveal_with_fuel(is_plain, 12);
    reveal_with_fuel(spells, 18);
    lemma_names();
    let s = queries::INDEX_UPDATE@;
    let known = Seq::<Seq<char>>::empty();
    let known = lemma_next(s, 0, 32, "title"@, known);
    let known = lemma_next(s, 38, 54, "description"@, known);
    let known = lemma_next(s, 66, 77, "status"@, known);
    let known = lemma_next(s, 84, 100, "config_json"@, known);
    let known = lemma_next(s, 112, 167, "id"@, known);
    let known = lemma_next(s, 170, 187, "tenant_id"@, known);
    let known = lemma_next(s, 197, 220, "organization_id"@, known);
    lemma_rest(s, 236, 427, known);
}

/// The parameters of [`queries::INDEX_DELETE`].
#[verifier::rlimit(60)]
pub proof fn lemma_index_delete()
    ensures
        parameter_names(queries::INDEX_DELETE@) == seq![
            "deleted_by"@,
            "id"@,
            "tenant_id"@,
            "organization_id"@,
        ],
{
    reveal_strlit(
        "UPDATE search_index SET deleted_at = NOW(), deleted_by = :deleted_by, version = \
        version + 1, updated_at = NOW() WHERE id = :id AND tenant_id = :tenant_id AND \
        organization_id = :organization_id AND deleted_at IS NULL",
    );
    reveal_strlit("deleted_by");
    reveal_strlit("id");
    reveal_strlit("tenant_id");
    reveal_strlit("organization_id");
    reveal_with_fuel(is_plain, 12);
    reveal_with_fuel(spells, 18);
    lemma_names();
    let s = queries::INDEX_DELETE@;
    let known = Seq::<Seq<char>>::empty();
    let known = lemma_next(s, 0, 57, "deleted_by"@, known);
    let known = lemma_next(s, 68, 123, "id"@, known);
    let known = lemma_next(s, 126, 143, "tenant_id"@, known);
    let known = lemma_next(s, 153, 176, "organization_id"@, known);
    lemma_rest(s, 192, 215, known);
}

/// The parameters of [`queries::JOB_CREATE`].
#[verifier::rlimit(60)]
pub proof fn lemma_job_create()
    ensures
        parameter_names(queries::JOB_CREATE@) == seq![
            "id"@,
            "uuid"@,
            "tenant_id"@,
            "organization_id"@,
            "index_key"@,
            "job_type"@,
            "payload_json"@,
        ],
{
    reveal_strlit(
        "INSERT INTO search_index_job (id, uuid, tenant_id, organization_id, index_key, \
        job_type, status, payload_json, scheduled_at) VALUES (:id, :uuid, :tenant_id, \
        :organization_id, :index_key, :job_type, 0, :payload_json, NOW()) RETURNING id, uuid, \
        tenant_id, organization_id, index_key, job_type, status, payload_json, scheduled_at, \
        started_at, finished_at, error_summary, retry_count, created_at, updated_at, version",
    );
    reveal_strlit("id");
    reveal_strlit("uuid");
    reveal_strlit("tenant_id");
    reveal_strlit("organization_id");
    reveal_strlit("index_key");
    reveal_strlit("job_type");
    reveal_strlit("payload_json");
    reveal_with_fuel(is_plain, 12);
    reveal_with_fuel(spells, 18);
    lemma_names();
    let s = queries::JOB_CREATE@;
    let known = Seq::<Seq<char>>::empty();
    let known = lemma_next(s, 0, 133, "id"@, known);
    let known = lemma_next(s, 136, 138, "uuid"@, known);
    let known = lemma_next(s, 143, 145, "tenant_id"@, known);
    let known = lemma_next(s, 155, 157, "organization_id"@, known);
    let known = lemma_next(s, 173, 175, "index_key"@, known);
    let known = lemma_next(s, 185, 187, "job_type"@, known);
    let known = lemma_next(s, 196, 201, "payload_json"@, known);
    lemma_rest(s, 214, 412, known);
}

/// The parameters of [`queries::JOB_GET`].
#[verifier::rlimit(60)]
pub proof fn lemma_job_get()
    ensures
        parameter_names(queries::JOB_GET@) == seq!["tenant_id"@, "organization_id"@, "uuid"@],
{
    reveal_strlit(
        "SELECT id, uuid, tenant_id, organization_id, index_key, job_type, status, \
        payload_json, scheduled_at, started_at, finished_at, error_summary, retry_count, \
        created_at, updated_at, version FROM search_index_job WHERE tenant_id = :tenant_id AND \
        organization_id = :organization_id AND uuid = :uuid",
    );
    reveal_strlit("tenant_id");
    reveal_strlit("organization_id");
    reveal_strlit("uuid");
    reveal_with_fuel(is_plain, 12);
    reveal_with_fuel(spells, 18);
    lemma_names();
    let s = queries::JOB_GET@;
    let known = Seq::<Seq<char>>::empty();
    let known = lemma_next(s, 0, 227, "tenant_id"@, known);
    let known = lemma_next(s, 237, 260, "organization_id"@, known);
    let known = lemma_next(s, 276, 288, "uuid"@, known);
    lemma_rest(s, 293, 293, known);
}

/// The parameters of [`queries::JOB_UPDATE_STATUS`].
#[verifier::rlimit(60)]
pub proof fn lemma_job_update_status()
    ensures
        parameter_names(queries::JOB_UPDATE_STATUS@) == seq![
            "status"@,
            "started_at"@,
            "finished_at"@,
            "error_summary"@,
            "uuid"@,
            "tenant_id"@,
            "organization_id"@,
        ],
{
    reveal_strlit(
        "UPDATE search_index_job SET status = :status, started_at = :started_at, finished_at = \
        :finished_at, error_summary = :error_summary, updated_at = NOW(), version = version + \
        1 WHERE uuid = :uuid AND tenant_id = :tenant_id AND organization_id = \
        :organization_id",
    );
    reveal_strlit("status");
    reveal_strlit("started_at");
    reveal_strlit("finished_at");
    reveal_strlit("error_summary");
    reveal_strlit("uuid");
    reveal_strlit("tenant_id");
    reveal_strlit("organization_id");
    reveal_with_fuel(is_plain, 12);
    reveal_with_fuel(spells, 18);
    lemma_names();
    let s = queries::JOB_UPDATE_STATUS@;
    let known = Seq::<Seq<char>>::empty();
    let known = lemma_next(s, 0, 37, "status"@, known);
    let known = lemma_next(s, 44, 59, "started_at"@, known);
    let known = lemma_next(s, 70, 86, "finished_at"@, known);
    let known = lemma_next(s, 98, 116, "error_summary"@, known);
    let known = lemma_next(s, 130, 187, "uuid"@, known);
    let known = lemma_next(s, 192, 209, "tenant_id"@, known);
    let known = lemma_next(s, 219, 242, "organization_id"@, known);
    lemma_rest(s, 258, 258, known);
}

/// The parameters of [`queries::DOCUMENT_GET`].
#[verifier::rlimit(60)]
pub proof fn lemma_document_get()
    ensures
        parameter_names(queries::DOCUMENT_GET@) == seq![
            "tenant_id"@,
            "organization_id"@,
            "index_key"@,
            "document_id"@,
        ],
{
    reveal_strlit(
        "SELECT id, uuid, tenant_id, organization_id, index_id, index_key, document_id, \
        capability, scope, group_key, group_title, source_ref, title, body_text, keyword_text, \
        payload_json, token_json, embedding_json, status, data_scope, indexed_at, created_at, \
        updated_at, version, deleted_at, deleted_by FROM search_document WHERE tenant_id = \
        :tenant_id AND organization_id = :organization_id AND index_key = :index_key AND \
        document_id = :document_id AND deleted_at IS NULL",
    );
    reveal_strlit("tenant_id");
    reveal_strlit("organization_id");
    reveal_strlit("index_key");
    reveal_strlit("document_id");
    reveal_with_fuel(is_plain, 12);
    reveal_with_fuel(spells, 18);
    lemma_names();
    let s = queries::DOCUMENT_GET@;
    let known = Seq::<Seq<char>>::empty();
    let known = lemma_next(s, 0, 335, "tenant_id"@, known);
    let known = lemma_next(s, 345, 368, "organization_id"@, known);
    let known = lemma_next(s, 384, 401, "index_key"@, known);
    let known = lemma_next(s, 411, 430, "document_id"@, known);
    lemma_rest(s, 442, 465, known);
}

/// The parameters of [`queries::DOCUMENT_LIST`].
#[verifier::rlimit(60)]
pub proof fn lemma_document_list()
    ensures
        parameter_names(queries::DOCUMENT_LIST@) == seq![
            "tenant_id"@,
            "organization_id"@,
            "index_key"@,
            "limit"@,
            "offset"@,
        ],
{
    reveal_strlit(
        "SELECT id, uuid, tenant_id, organization_id, index_id, index_key, document_id, \
        capability, scope, group_key, group_title, source_ref, title, body_text, keyword_text, \
        payload_json, token_json, embedding_json, status, data_scope, indexed_at, created_at, \
        updated_at, version, deleted_at, deleted_by FROM search_document WHERE tenant_id = \
        :tenant_id AND organization_id = :organization_id AND index_key = :index_key AND \
        deleted_at IS NULL ORDER BY updated_at DESC LIMIT :limit OFFSET :offset",
    );
    reveal_strlit("tenant_id");
    reveal_strlit("organization_id");
    reveal_strlit("index_key");
    reveal_strlit("limit");
    reveal_strlit("offset");
    reveal_with_fuel(is_plain, 12);
    reveal_with_fuel(spells, 18);
    lemma_names();
    let s = queries::DOCUMENT_LIST@;
    let known = Seq::<Seq<char>>::empty();
    let known = lemma_next(s, 0, 335, "tenant_id"@, known);
    let known = lemma_next(s, 345, 368, "organization_id"@, known);
    let known = lemma_next(s, 384, 401, "index_key"@, known);
    let known = lemma_next(s, 411, 466, "limit"@, known);
    let known = lemma_next(s, 472, 480, "offset"@, known);
    lemma_rest(s, 487, 487, known);
}

/// The parameters of [`queries::DOCUMENT_UPSERT`].
#[verifier::rlimit(100)]
pub proof fn lemma_document_upsert()
    ensures
        parameter_names(queries::DOCUMENT_UPSERT@) == seq![
            "id"@,
            "uuid"@,
            "tenant_id"@,
            "organization_id"@,
            "index_id"@,
            "index_key"@,
            "document_id"@,
            "capability"@,
            "scope"@,
            "group_key"@,
            "group_title"@,
            "source_ref"@,
            "title"@,
            "body_text"@,
            "keyword_text"@,
            "payload_json"@,
            "token_json"@,
            "embedding_json"@,
            "status"@,
            "data_scope"@,
        ],
{
    reveal_strlit(
        "INSERT INTO search_document (id, uuid, tenant_id, organization_id, index_id, \
        index_key, document_id, capability, scope, group_key, group_title, source_ref, title, \
        body_text, keyword_text, payload_json, token_json, embedding_json, status, data_scope, \
        indexed_at) VALUES (:id, :uuid, :tenant_id, :organization_id, :index_id, :index_key, \
        :document_id, :capability, :scope, :group_key, :group_title, :source_ref, :title, \
        :body_text, :keyword_text, :payload_json, :token_json, :embedding_json, :status, \
        :data_scope, NOW()) ON CONFLICT (tenant_id, organization_id, index_key, document_id) \
        DO UPDATE SET index_id = EXCLUDED.index_id, capability = EXCLUDED.capability, scope = \
        EXCLUDED.scope, group_key = EXCLUDED.group_key, group_title = EXCLUDED.group_title, \
        source_ref = EXCLUDED.source_ref, title = EXCLUDED.title, body_text = \
        EXCLUDED.body_text, keyword_text = EXCLUDED.keyword_text, payload_json = \
        EXCLUDED.payload_json, token_json = EXCLUDED.token_json, embedding_json = \
        EXCLUDED.embedding_json, status = EXCLUDED.status, data_scope = EXCLUDED.data_scope, \
        indexed_at = NOW(), updated_at = NOW(), version = search_document.version + 1 \
        RETURNING id, uuid, tenant_id, organization_id, index_id, index_key, document_id, \
        capability, scope, group_key, group_title, source_ref, title, body_text, keyword_text, \
        payload_json, token_json, embedding_json, status, data_scope, indexed_at, created_at, \
        updated_at, version, deleted_at, deleted_by",
    );
    reveal_strlit("id");
    reveal_strlit("uuid");
    reveal_strlit("tenant_id");
    reveal_strlit("organization_id");
    reveal_strlit("index_id");
    reveal_strlit("index_key");
    reveal_strlit("document_id");
    reveal_strlit("capability");
    reveal_strlit("scope");
    reveal_strlit("group_key");
    reveal_strlit("group_title");
    reveal_strlit("source_ref");
    reveal_strlit("title");
    reveal_strlit("body_text");
    reveal_strlit("keyword_text");
    reveal_strlit("payload_json");
    reveal_strlit("token_json");
    reveal_strlit("embedding_json");
    reveal_strlit("status");
    reveal_strlit("data_scope");
    reveal_with_fuel(is_plain, 12);
    reveal_with_fuel(spells, 18);
    lemma_names();
    let s = queries::DOCUMENT_UPSERT@;
    let known = Seq::<Seq<char>>::empty();
    let known = lemma_next(s, 0, 270, "id"@, known);
    let known = lemma_next(s, 273, 275, "uuid"@, known);
    let known = lemma_next(s, 280, 282, "tenant_id"@, known);
    let known = lemma_next(s, 292, 294, "organization_id"@, known);
    let known = lemma_next(s, 310, 312, "index_id"@, known);
    let known = lemma_next(s, 321, 323, "index_key"@, known);
    let known = lemma_next(s, 333, 335, "document_id"@, known);
    let known = lemma_next(s, 347, 349, "capability"@, known);
    let known = lemma_next(s, 360, 362, "scope"@, known);
    let known = lemma_next(s, 368, 370, "group_key"@, known);
    let known = lemma_next(s, 380, 382, "group_title"@, known);
    let known = lemma_next(s, 394, 396, "source_ref"@, known);
    let known = lemma_next(s, 407, 409, "title"@, known);
    let known = lemma_next(s, 415, 417, "body_text"@, known);
    let known = lemma_next(s, 427, 429, "keyword_text"@, known);
    let known = lemma_next(s, 442, 444, "payload_json"@, known);
    let known = lemma_next(s, 457, 459, "token_json"@, known);
    let known = lemma_next(s, 470, 472, "embedding_json"@, known);
    let known = lemma_next(s, 487, 489, "status"@, known);
    let known = lemma_next(s, 496, 498, "data_scope"@, known);
    lemma_rest(s, 509, 1431, known);
}

/// The parameters of [`queries::DOCUMENT_DELETE`].
#[verifier::rlimit(60)]
pub proof fn lemma_document_delete()
    ensures
        parameter_names(queries::DOCUMENT_DELETE@) == seq![
            "deleted_by"@,
            "tenant_id"@,
            "organization_id"@,
            "index_key"@,
            "document_id"@,
        ],
{
    reveal_strlit(
        "UPDATE search_document SET deleted_at = NOW(), deleted_by = :deleted_by, version = \
        version + 1, updated_at = NOW() WHERE tenant_id = :tenant_id AND organization_id = \
        :organization_id AND index_key = :index_key AND document_id = :document_id AND \
        deleted_at IS NULL",
    );
    reveal_strlit("deleted_by");
    reveal_strlit("tenant_id");
    reveal_strlit("organization_id");
    reveal_strlit("index_key");
    reveal_strlit("document_id");
    reveal_with_fuel(is_plain, 12);
    reveal_with_fuel(spells, 18);
    lemma_names();
    let s = queries::DOCUMENT_DELETE@;
    let known = Seq::<Seq<char>>::empty();
    let known = lemma_next(s, 0, 60, "deleted_by"@, known);
    let known = lemma_next(s, 71, 133, "tenant_id"@, known);
    let known = lemma_next(s, 143, 166, "organization_id"@, known);
    let known = lemma_next(s, 182, 199, "index_key"@, known);
    let known = lemma_next(s, 209, 228, "document_id"@, known);
    lemma_rest(s, 240, 263, known);
}

/// The parameters of [`queries::DOCUMENT_FULLTEXT_SEARCH`].
#[verifier::rlimit(60)]
pub proof fn lemma_document_fulltext_search()
    ensures
        parameter_names(queries::DOCUMENT_FULLTEXT_SEARCH@) == seq![
            "query"@,
            "tenant_id"@,
            "organization_id"@,
            "index_key"@,
            "limit"@,
            "offset"@,
        ],
{
    reveal_strlit(
        "SELECT id, uuid, tenant_id, organization_id, index_id, index_key, document_id, \
        capability, scope, group_key, group_title, source_ref, title, body_text, keyword_text, \
        payload_json, token_json, embedding_json, status, data_scope, indexed_at, created_at, \
        updated_at, version, deleted_at, deleted_by , ts_rank(search_vector, \
        plainto_tsquery(:query)) AS score FROM search_document WHERE tenant_id = :tenant_id \
        AND organization_id = :organization_id AND index_key = :index_key AND search_vector @@ \
        plainto_tsquery(:query) AND deleted_at IS NULL ORDER BY score DESC LIMIT :limit OFFSET \
        :offset",
    );
    reveal_strlit("query");
    reveal_strlit("tenant_id");
    reveal_strlit("organization_id");
    reveal_strlit("index_key");
    reveal_strlit("limit");
    reveal_strlit("offset");
    reveal_with_fuel(is_plain, 12);
    reveal_with_fuel(spells, 18);
    lemma_names();
    let s = queries::DOCUMENT_FULLTEXT_SEARCH@;
    let known = Seq::<Seq<char>>::empty();
    let known = lemma_next(s, 0, 337, "query"@, known);
    let known = lemma_next(s, 343, 394, "tenant_id"@, known);
    let known = lemma_next(s, 404, 427, "organization_id"@, known);
    let known = lemma_next(s, 443, 460, "index_key"@, known);
    assert(known[0] == "query"@);
    let known = lemma_next(s, 470, 508, "query"@, known);
    let known = lemma_next(s, 514, 565, "limit"@, known);
    let known = lemma_next(s, 571, 579, "offset"@, known);
    lemma_rest(s, 586, 586, known);
}

/// The parameters of [`queries::DOCUMENT_FUZZY_SEARCH`].
#[verifier::rlimit(60)]
pub proof fn lemma_document_fuzzy_search()
    ensures
        parameter_names(queries::DOCUMENT_FUZZY_SEARCH@) == seq![
            "query"@,
            "tenant_id"@,
            "organization_id"@,
            "index_key"@,
            "limit"@,
            "offset"@,
        ],
{
    reveal_strlit(
        "SELECT id, uuid, tenant_id, organization_id, index_id, index_key, document_id, \
        capability, scope, group_key, group_title, source_ref, title, body_text, keyword_text, \
        payload_json, token_json, embedding_json, status, data_scope, indexed_at, created_at, \
        updated_at, version, deleted_at, deleted_by , similarity(title, :query) AS score FROM \
        search_document WHERE tenant_id = :tenant_id AND organization_id = :organization_id \
        AND index_key = :index_key AND similarity(title, :query) > 0.1 AND deleted_at IS NULL \
        ORDER BY score DESC LIMIT :limit OFFSET :offset",
    );
    reveal_strlit("query");
    reveal_strlit("tenant_id");
    reveal_strlit("organization_id");
    reveal_strlit("index_key");
    reveal_strlit("limit");
    reveal_strlit("offset");
    reveal_with_fuel(is_plain, 12);
    reveal_with_fuel(spells, 18);
    lemma_names();
    let s = queries::DOCUMENT_FUZZY_SEARCH@;
    let known = Seq::<Seq<char>>::empty();
    let known = lemma_next(s, 0, 316, "query"@, known);
    let known = lemma_next(s, 322, 372, "tenant_id"@, known);
    let known = lemma_next(s, 382, 405, "organization_id"@, known);
    let known = lemma_next(s, 421, 438, "index_key"@, known);
    assert(known[0] == "query"@);
    let known = lemma_next(s, 448, 471, "query"@, known);
    let known = lemma_next(s, 477, 534, "limit"@, known);
    let known = lemma_next(s, 540, 548, "offset"@, known);
    lemma_rest(s, 555, 555, known);
}

/// The parameters of [`queries::DOCUMENT_SEMANTIC_SEARCH`].
#[verifier::rlimit(60)]
pub proof fn lemma_document_semantic_search()
    ensures
        parameter_names(queries::DOCUMENT_SEMANTIC_SEARCH@) == seq![
            "query_embedding"@,
            "tenant_id"@,
            "organization_id"@,
            "index_key"@,
            "limit"@,
            "offset"@,
        ],
{
    reveal_strlit(
        "SELECT id, uuid, tenant_id, organization_id, index_id, index_key, document_id, \
        capability, scope, group_key, group_title, source_ref, title, body_text, keyword_text, \
        payload_json, token_json, embedding_json, status, data_scope, indexed_at, created_at, \
        updated_at, version, deleted_at, deleted_by , 1 - ((embedding_json -> \
        'vector')::text)::vector <=> :query_embedding::vector AS score FROM search_document \
        WHERE tenant_id = :tenant_id AND organization_id = :organization_id AND index_key = \
        :index_key AND embedding_json ? 'vector' AND deleted_at IS NULL ORDER BY score DESC \
        LIMIT :limit OFFSET :offset",
    );
    reveal_strlit("query_embedding");
    reveal_strlit("tenant_id");
    reveal_strlit("organization_id");
    reveal_strlit("index_key");
    reveal_strlit("limit");
    reveal_strlit("offset");
    reveal_with_fuel(is_plain, 12);
    reveal_with_fuel(spells, 18);
    lemma_names();
    let s = queries::DOCUMENT_SEMANTIC_SEARCH@;
    let known = Seq::<Seq<char>>::empty();
    let known = lemma_next(s, 0, 351, "query_embedding"@, known);
    let known = lemma_next(s, 367, 424, "tenant_id"@, known);
    let known = lemma_next(s, 434, 457, "organization_id"@, known);
    let known = lemma_next(s, 473, 490, "index_key"@, known);
    let known = lemma_next(s, 500, 580, "limit"@, known);
    let known = lemma_next(s, 586, 594, "offset"@, known);
    lemma_rest(s, 601, 601, known);
}

/// The parameters of [`queries::DOCUMENT_COUNT`].
#[verifier::rlimit(60)]
pub proof fn lemma_document_count()
    ensures
        parameter_names(queries::DOCUMENT_COUNT@) == seq![
            "tenant_id"@,
            "organization_id"@,
            "index_key"@,
        ],
{
    reveal_strlit(
        "SELECT COUNT(*) AS count FROM search_document WHERE tenant_id = :tenant_id AND \
        organization_id = :organization_id AND index_key = :index_key AND deleted_at IS NULL",
    );
    reveal_strlit("tenant_id");
    reveal_strlit("organization_id");
    reveal_strlit("index_key");
    reveal_with_fuel(is_plain, 12);
    reveal_with_fuel(spells, 18);
    lemma_names();
    let s = queries::DOCUMENT_COUNT@;
    let known = Seq::<Seq<char>>::empty();
    let known = lemma_next(s, 0, 64, "tenant_id"@, known);
    let known = lemma_next(s, 74, 97, "organization_id"@, known);
    let known = lemma_next(s, 113, 130, "index_key"@, known);
    lemma_rest(s, 140, 163, known);
}

/// The parameters of [`queries::DOCUMENT_STATS`].
#[verifier::rlimit(60)]
pub proof fn lemma_document_stats()
    ensures
        parameter_names(queries::DOCUMENT_STATS@) == seq![
            "tenant_id"@,
            "organization_id"@,
            "index_key"@,
        ],
{
    reveal_strlit(
        "SELECT COUNT(*) AS document_count, COUNT(*) FILTER (WHERE status = 1) AS \
        active_document_count, MAX(updated_at) AS last_updated FROM search_document WHERE \
        tenant_id = :tenant_id AND organization_id = :organization_id AND index_key = \
        :index_key AND deleted_at IS NULL",
    );
    reveal_strlit("tenant_id");
    reveal_strlit("organization_id");
    reveal_strlit("index_key");
    reveal_with_fuel(is_plain, 12);
    reveal_with_fuel(spells, 18);
    lemma_names();
    let s = queries::DOCUMENT_STATS@;
    let known = Seq::<Seq<char>>::empty();
    let known = lemma_next(s, 0, 167, "tenant_id"@, known);
    let known = lemma_next(s, 177, 200, "organization_id"@, known);
    let known = lemma_next(s, 216, 233, "index_key"@, known);
    lemma_rest(s, 243, 266, known);
}

/// The parameters of [`queries::SUGGESTION_LIST`].
#[verifier::rlimit(60)]
pub proof fn lemma_suggestion_list()
    ensures
        parameter_names(queries::SUGGESTION_LIST@) == seq![
            "tenant_id"@,
            "organization_id"@,
            "index_key"@,
            "prefix"@,
            "limit"@,
        ],
{
    reveal_strlit(
        "SELECT id, uuid, tenant_id, organization_id, index_key, suggestion_text, source, \
        score, status, created_at, updated_at, version FROM search_query_suggestion WHERE \
        tenant_id = :tenant_id AND organization_id = :organization_id AND index_key = \
        :index_key AND status = 1 AND similarity(suggestion_text, :prefix) > 0.1 ORDER BY \
        similarity(suggestion_text, :prefix) DESC, score DESC LIMIT :limit",
    );
    reveal_strlit("tenant_id");
    reveal_strlit("organization_id");
    reveal_strlit("index_key");
    reveal_strlit("prefix");
    reveal_strlit("limit");
    reveal_with_fuel(is_plain, 12);
    reveal_with_fuel(spells, 18);
    lemma_names();
    let s = queries::SUGGESTION_LIST@;
    let known = Seq::<Seq<char>>::empty();
    let known = lemma_next(s, 0, 175, "tenant_id"@, known);
    let known = lemma_next(s, 185, 208, "organization_id"@, known);
    let known = lemma_next(s, 224, 241, "index_key"@, known);
    let known = lemma_next(s, 251, 299, "prefix"@, known);
    assert(known[3] == "prefix"@);
    let known = lemma_next(s, 306, 351, "prefix"@, known);
    let known = lemma_next(s, 358, 383, "limit"@, known);
    lemma_rest(s, 389, 389, known);
}

/// The parameters of [`queries::SUGGESTION_UPSERT`].
#[verifier::rlimit(60)]
pub proof fn lemma_suggestion_upsert()
    ensures
        parameter_names(queries::SUGGESTION_UPSERT@) == seq![
            "id"@,
            "uuid"@,
            "tenant_id"@,
            "organization_id"@,
            "index_key"@,
            "suggestion_text"@,
        ],
{
    reveal_strlit(
        "INSERT INTO search_query_suggestion (id, uuid, tenant_id, organization_id, index_key, \
        suggestion_text, score, status, version) VALUES (:id, :uuid, :tenant_id, \
        :organization_id, :index_key, :suggestion_text, 1, 1, 0) ON CONFLICT (tenant_id, \
        organization_id, index_key, suggestion_text) DO UPDATE SET score = \
        search_query_suggestion.score + 1, updated_at = NOW(), version = version + 1 RETURNING \
        id, uuid, tenant_id, organization_id, index_key, suggestion_text, source, score, \
        status, created_at, updated_at, version",
    );
    reveal_strlit("id");
    reveal_strlit("uuid");
    reveal_strlit("tenant_id");
    reveal_strlit("organization_id");
    reveal_strlit("index_key");
    reveal_strlit("suggestion_text");
    reveal_with_fuel(is_plain, 12);
    reveal_with_fuel(spells, 18);
    lemma_names();
    let s = queries::SUGGESTION_UPSERT@;
    let known = Seq::<Seq<char>>::empty();
    let known = lemma_next(s, 0, 135, "id"@, known);
    let known = lemma_next(s, 138, 140, "uuid"@, known);
    let known = lemma_next(s, 145, 147, "tenant_id"@, known);
    let known = lemma_next(s, 157, 159, "organization_id"@, known);
    let known = lemma_next(s, 175, 177, "index_key"@, known);
    let known = lemma_next(s, 187, 189, "suggestion_text"@, known);
    lemma_rest(s, 205, 514, known);
}

/// The parameters of [`queries::SUGGESTION_INCREMENT_POPULARITY`].
#[verifier::rlimit(60)]
pub proof fn lemma_suggestion_increment_popularity()
    ensures
        parameter_names(queries::SUGGESTION_INCREMENT_POPULARITY@) == seq![
            "id"@,
            "tenant_id"@,
            "organization_id"@,
        ],
{
    reveal_strlit(
        "UPDATE search_query_suggestion SET score = score + 1, updated_at = NOW(), version = \
        version + 1 WHERE id = :id AND tenant_id = :tenant_id AND organization_id = \
        :organization_id AND status = 1",
    );
    reveal_strlit("id");
    reveal_strlit("tenant_id");
    reveal_strlit("organization_id");
    reveal_with_fuel(is_plain, 12);
    reveal_with_fuel(spells, 18);
    lemma_names();
    let s = queries::SUGGESTION_INCREMENT_POPULARITY@;
    let known = Seq::<Seq<char>>::empty();
    let known = lemma_next(s, 0, 107, "id"@, known);
    let known = lemma_next(s, 110, 127, "tenant_id"@, known);
    let known = lemma_next(s, 137, 160, "organization_id"@, known);
    lemma_rest(s, 176, 191, known);
}

/// The parameters of [`queries::USER_EVENT_RECORD`].
#[verifier::rlimit(60)]
pub proof fn lemma_user_event_record()
    ensures
        parameter_names(queries::USER_EVENT_RECORD@) == seq![
            "id"@,
            "uuid"@,
            "tenant_id"@,
            "organization_id"@,
            "user_id"@,
            "event_type"@,
            "surface"@,
            "index_key"@,
            "document_id"@,
            "placement"@,
            "q"@,
            "result_position"@,
            "request_id"@,
            "metadata_json"@,
        ],
{
    reveal_strlit(
        "INSERT INTO search_user_event (id, uuid, tenant_id, organization_id, user_id, \
        event_type, surface, index_key, document_id, placement, q, result_position, \
        request_id, metadata_json, occurred_at) VALUES (:id, :uuid, :tenant_id, \
        :organization_id, :user_id, :event_type, :surface, :index_key, :document_id, \
        :placement, :q, :result_position, :request_id, :metadata_json, NOW()) RETURNING id, \
        uuid, tenant_id, organization_id, user_id, event_type, surface, index_key, \
        document_id, placement, q, result_position, request_id, metadata_json, occurred_at, \
        created_at",
    );
    reveal_strlit("id");
    reveal_strlit("uuid");
    reveal_strlit("tenant_id");
    reveal_strlit("organization_id");
    reveal_strlit("user_id");
    reveal_strlit("event_type");
    reveal_strlit("surface");
    reveal_strlit("index_key");
    reveal_strlit("document_id");
    reveal_strlit("placement");
    reveal_strlit("q");
    reveal_strlit("result_position");
    reveal_strlit("request_id");
    reveal_strlit("metadata_json");
    reveal_with_fuel(is_plain, 12);
    reveal_with_fuel(spells, 18);
    lemma_names();
    let s = queries::USER_EVENT_RECORD@;
    let known = Seq::<Seq<char>>::empty();
    let known = lemma_next(s, 0, 202, "id"@, known);
    let known = lemma_next(s, 205, 207, "uuid"@, known);
    let known = lemma_next(s, 212, 214, "tenant_id"@, known);
    let known = lemma_next(s, 224, 226, "organization_id"@, known);
    let known = lemma_next(s, 242, 244, "user_id"@, known);
    let known = lemma_next(s, 252, 254, "event_type"@, known);
    let known = lemma_next(s, 265, 267, "surface"@, known);
    let known = lemma_next(s, 275, 277, "index_key"@, known);
    let known = lemma_next(s, 287, 289, "document_id"@, known);
    let known = lemma_next(s, 301, 303, "placement"@, known);
    let known = lemma_next(s, 313, 315, "q"@, known);
    let known = lemma_next(s, 317, 319, "result_position"@, known);
    let known = lemma_next(s, 335, 337, "request_id"@, known);
    let known = lemma_next(s, 348, 350, "metadata_json"@, known);
    lemma_rest(s, 364, 556, known);
}

/// The parameters of [`queries::RECENT_QUERY_UPSERT`].
#[verifier::rlimit(60)]
pub proof fn lemma_recent_query_upsert()
    ensures
        parameter_names(queries::RECENT_QUERY_UPSERT@) == seq![
            "id"@,
            "uuid"@,
            "tenant_id"@,
            "organization_id"@,
            "user_id"@,
            "index_key"@,
            "q"@,
            "result_count"@,
        ],
{
    reveal_strlit(
        "INSERT INTO search_recent_query (id, uuid, tenant_id, organization_id, user_id, \
        index_key, q, result_count, last_used_at) VALUES (:id, :uuid, :tenant_id, \
        :organization_id, :user_id, :index_key, :q, :result_count, NOW()) ON CONFLICT \
        (tenant_id, organization_id, user_id, index_key, q) DO UPDATE SET result_count = \
        EXCLUDED.result_count, last_used_at = NOW(), updated_at = NOW() RETURNING id, uuid, \
        tenant_id, organization_id, user_id, index_key, q, result_count, last_used_at, \
        created_at, updated_at",
    );
    reveal_strlit("id");
    reveal_strlit("uuid");
    reveal_strlit("tenant_id");
    reveal_strlit("organization_id");
    reveal_strlit("user_id");
    reveal_strlit("index_key");
    reveal_strlit("q");
    reveal_strlit("result_count");
    reveal_with_fuel(is_plain, 12);
    reveal_with_fuel(spells, 18);
    lemma_names();
    let s = queries::RECENT_QUERY_UPSERT@;
    let known = Seq::<Seq<char>>::empty();
    let known = lemma_next(s, 0, 130, "id"@, known);
    let known = lemma_next(s, 133, 135, "uuid"@, known);
    let known = lemma_next(s, 140, 142, "tenant_id"@, known);
    let known = lemma_next(s, 152, 154, "organization_id"@, known);
    let known = lemma_next(s, 170, 172, "user_id"@, known);
    let known = lemma_next(s, 180, 182, "index_key"@, known);
    let known = lemma_next(s, 192, 194, "q"@, known);
    let known = lemma_next(s, 196, 198, "result_count"@, known);
    lemma_rest(s, 211, 498, known);
}

/// The parameters of [`queries::RECENT_QUERY_LIST`].
#[verifier::rlimit(60)]
pub proof fn lemma_recent_query_list()
    ensures
        parameter_names(queries::RECENT_QUERY_LIST@) == seq![
            "tenant_id"@,
            "organization_id"@,
            "user_id"@,
            "limit"@,
        ],
{
    reveal_strlit(
        "SELECT id, uuid, tenant_id, organization_id, user_id, index_key, q, result_count, \
        last_used_at, created_at, updated_at FROM search_recent_query WHERE tenant_id = \
        :tenant_id AND organization_id = :organization_id AND user_id = :user_id ORDER BY \
        last_used_at DESC LIMIT :limit",
    );
    reveal_strlit("tenant_id");
    reveal_strlit("organization_id");
    reveal_strlit("user_id");
    reveal_strlit("limit");
    reveal_with_fuel(is_plain, 12);
    reveal_with_fuel(spells, 18);
    lemma_names();
    let s = queries::RECENT_QUERY_LIST@;
    let known = Seq::<Seq<char>>::empty();
    let known = lemma_next(s, 0, 162, "tenant_id"@, known);
    let known = lemma_next(s, 172, 195, "organization_id"@, known);
    let known = lemma_next(s, 211, 226, "user_id"@, known);
    let known = lemma_next(s, 234, 268, "limit"@, known);
    lemma_rest(s, 274, 274, known);
}

/// The parameters of [`queries::USER_EVENT_LIST_BY_USER`].
#[verifier::rlimit(60)]
pub proof fn lemma_user_event_list_by_user()
    ensures
        parameter_names(queries::USER_EVENT_LIST_BY_USER@) == seq![
            "tenant_id"@,
            "organization_id"@,
            "user_id"@,
            "event_type"@,
            "limit"@,
        ],
{
    reveal_strlit(
        "SELECT id, uuid, tenant_id, organization_id, user_id, event_type, surface, index_key, \
        document_id, placement, q, result_position, request_id, metadata_json, occurred_at, \
        created_at FROM search_user_event WHERE tenant_id = :tenant_id AND organization_id = \
        :organization_id AND user_id = :user_id AND (:event_type IS NULL OR event_type = \
        :event_type) ORDER BY occurred_at DESC LIMIT :limit",
    );
    reveal_strlit("tenant_id");
    reveal_strlit("organization_id");
    reveal_strlit("user_id");
    reveal_strlit("event_type");
    reveal_strlit("limit");
    reveal_with_fuel(is_plain, 12);
    reveal_with_fuel(spells, 18);
    lemma_names();
    let s = queries::USER_EVENT_LIST_BY_USER@;
    let known = Seq::<Seq<char>>::empty();
    let known = lemma_next(s, 0, 222, "tenant_id"@, known);
    let known = lemma_next(s, 232, 255, "organization_id"@, known);
    let known = lemma_next(s, 271, 286, "user_id"@, known);
    let known = lemma_next(s, 294, 300, "event_type"@, known);
    assert(known[3] == "event_type"@);
    let known = lemma_next(s, 311, 336, "event_type"@, known);
    let known = lemma_next(s, 347, 381, "limit"@, known);
    lemma_rest(s, 387, 387, known);
}

/// The parameters of [`queries::USER_EVENT_TRENDING`].
#[verifier::rlimit(60)]
pub proof fn lemma_user_event_trending()
    ensures
        parameter_names(queries::USER_EVENT_TRENDING@) == seq![
            "tenant_id"@,
            "organization_id"@,
            "index_key"@,
            "limit"@,
        ],
{
    reveal_strlit(
        "SELECT document_id, COUNT(*) AS event_count FROM search_user_event WHERE tenant_id = \
        :tenant_id AND organization_id = :organization_id AND index_key = :index_key AND \
        event_type IN ('view', 'click') AND document_id IS NOT NULL GROUP BY document_id ORDER \
        BY event_count DESC LIMIT :limit",
    );
    reveal_strlit("tenant_id");
    reveal_strlit("organization_id");
    reveal_strlit("index_key");
    reveal_strlit("limit");
    reveal_with_fuel(is_plain, 12);
    reveal_with_fuel(spells, 18);
    lemma_names();
    let s = queries::USER_EVENT_TRENDING@;
    let known = Seq::<Seq<char>>::empty();
    let known = lemma_next(s, 0, 85, "tenant_id"@, known);
    let known = lemma_next(s, 95, 118, "organization_id"@, known);
    let known = lemma_next(s, 134, 151, "index_key"@, known);
    let known = lemma_next(s, 161, 279, "limit"@, known);
    lemma_rest(s, 285, 285, known);
}

/// The parameters of [`queries::USER_EVENT_SIMILAR_DOCUMENTS`].
#[verifier::rlimit(60)]
pub proof fn lemma_user_event_similar_documents()
    ensures
        parameter_names(queries::USER_EVENT_SIMILAR_DOCUMENTS@) == seq![
            "tenant_id"@,
            "organization_id"@,
            "index_key"@,
            "document_ids"@,
            "limit"@,
        ],
{
    reveal_strlit(
        "SELECT document_id, COUNT(DISTINCT user_id) AS similarity_score FROM search_user_event \
        WHERE tenant_id = :tenant_id AND organization_id = :organization_id AND index_key = \
        :index_key AND document_id != ALL(:document_ids::text[]) AND user_id IN ( SELECT \
        DISTINCT user_id FROM search_user_event WHERE tenant_id = :tenant_id AND \
        organization_id = :organization_id AND document_id = ANY(:document_ids::text[]) ) AND \
        document_id IS NOT NULL AND event_type IN ('view', 'click') GROUP BY document_id ORDER \
        BY similarity_score DESC LIMIT :limit",
    );
    reveal_strlit("tenant_id");
    reveal_strlit("organization_id");
    reveal_strlit("index_key");
    reveal_strlit("document_ids");
    reveal_strlit("limit");
    reveal_with_fuel(is_plain, 12);
    reveal_with_fuel(spells, 18);
    lemma_names();
    let s = queries::USER_EVENT_SIMILAR_DOCUMENTS@;
    let known = Seq::<Seq<char>>::empty();
    let known = lemma_next(s, 0, 105, "tenant_id"@, known);
    let known = lemma_next(s, 115, 138, "organization_id"@, known);
    let known = lemma_next(s, 154, 171, "index_key"@, known);
    let known = lemma_next(s, 181, 205, "document_ids"@, known);
    assert(known[0] == "tenant_id"@);
    let known = lemma_next(s, 218, 310, "tenant_id"@, known);
    assert(known[1] == "organization_id"@);
    let known = lemma_next(s, 320, 343, "organization_id"@, known);
    assert(known[3] == "document_ids"@);
    let known = lemma_next(s, 359, 382, "document_ids"@, known);
    let known = lemma_next(s, 395, 529, "limit"@, known);
    lemma_rest(s, 535, 535, known);
}

/// The parameters of [`queries::PROMOTION_LIST_ACTIVE`].
#[verifier::rlimit(60)]
pub proof fn lemma_promotion_list_active()
    ensures
        parameter_names(queries::PROMOTION_LIST_ACTIVE@) == seq![
            "tenant_id"@,
            "organization_id"@,
            "index_key"@,
            "placement"@,
            "now"@,
        ],
{
    reveal_strlit(
        "SELECT id, uuid, tenant_id, organization_id, promotion_key, placement, index_key, \
        document_id, priority, rule_json, status, active_from, active_until, created_at, \
        updated_at, version, deleted_at, deleted_by FROM search_promotion WHERE tenant_id = \
        :tenant_id AND organization_id = :organization_id AND index_key = :index_key AND \
        placement = :placement AND status = 1 AND deleted_at IS NULL AND (active_from IS NULL \
        OR active_from <= :now) AND (active_until IS NULL OR active_until >= :now) ORDER BY \
        priority DESC, updated_at DESC",
    );
    reveal_strlit("tenant_id");
    reveal_strlit("organization_id");
    reveal_strlit("index_key");
    reveal_strlit("placement");
    reveal_strlit("now");
    reveal_with_fuel(is_plain, 12);
    reveal_with_fuel(spells, 18);
    lemma_names();
    let s = queries::PROMOTION_LIST_ACTIVE@;
    let known = Seq::<Seq<char>>::empty();
    let known = lemma_next(s, 0, 247, "tenant_id"@, known);
    let known = lemma_next(s, 257, 280, "organization_id"@, known);
    let known = lemma_next(s, 296, 313, "index_key"@, known);
    let known = lemma_next(s, 323, 340, "placement"@, known);
    let known = lemma_next(s, 350, 432, "now"@, known);
    assert(known[4] == "now"@);
    let known = lemma_next(s, 436, 483, "now"@, known);
    lemma_rest(s, 487, 528, known);
}

/// The parameters of [`queries::PROMOTION_CREATE`].
#[verifier::rlimit(60)]
pub proof fn lemma_promotion_create()
    ensures
        parameter_names(queries::PROMOTION_CREATE@) == seq![
            "id"@,
            "uuid"@,
            "tenant_id"@,
            "organization_id"@,
            "promotion_key"@,
            "placement"@,
            "index_key"@,
            "document_id"@,
            "priority"@,
            "rule_json"@,
        ],
{
    reveal_strlit(
        "INSERT INTO search_promotion (id, uuid, tenant_id, organization_id, promotion_key, \
        placement, index_key, document_id, priority, rule_json, status, version) VALUES (:id, \
        :uuid, :tenant_id, :organization_id, :promotion_key, :placement, :index_key, \
        :document_id, :priority, :rule_json, 1, 0) RETURNING id, uuid, tenant_id, \
        organization_id, promotion_key, placement, index_key, document_id, priority, \
        rule_json, status, active_from, active_until, created_at, updated_at, version, \
        deleted_at, deleted_by",
    );
    reveal_strlit("id");
    reveal_strlit("uuid");
    reveal_strlit("tenant_id");
    reveal_strlit("organization_id");
    reveal_strlit("promotion_key");
    reveal_strlit("placement");
    reveal_strlit("index_key");
    reveal_strlit("document_id");
    reveal_strlit("priority");
    reveal_strlit("rule_json");
    reveal_with_fuel(is_plain, 12);
    reveal_with_fuel(spells, 18);
    lemma_names();
    let s = queries::PROMOTION_CREATE@;
    let known = Seq::<Seq<char>>::empty();
    let known = lemma_next(s, 0, 164, "id"@, known);
    let known = lemma_next(s, 167, 169, "uuid"@, known);
    let known = lemma_next(s, 174, 176, "tenant_id"@, known);
    let known = lemma_next(s, 186, 188, "organization_id"@, known);
    let known = lemma_next(s, 204, 206, "promotion_key"@, known);
    let known = lemma_next(s, 220, 222, "placement"@, known);
    let known = lemma_next(s, 232, 234, "index_key"@, known);
    let known = lemma_next(s, 244, 246, "document_id"@, known);
    let known = lemma_next(s, 258, 260, "priority"@, known);
    let known = lemma_next(s, 269, 271, "rule_json"@, known);
    lemma_rest(s, 281, 498, known);
}

/// The parameters of [`queries::PROMOTION_EVENT_INSERT`].
#[verifier::rlimit(60)]
pub proof fn lemma_promotion_event_insert()
    ensures
        parameter_names(queries::PROMOTION_EVENT_INSERT@) == seq![
            "id"@,
            "uuid"@,
            "tenant_id"@,
            "organization_id"@,
            "user_id"@,
            "event_type"@,
            "promotion_id"@,
            "metadata_json"@,
        ],
{
    reveal_strlit(
        "INSERT INTO search_user_event (id, uuid, tenant_id, organization_id, user_id, \
        event_type, surface, document_id, metadata_json, occurred_at) VALUES (:id, :uuid, \
        :tenant_id, :organization_id, :user_id, :event_type, 'promotion', :promotion_id, \
        :metadata_json, NOW())",
    );
    reveal_strlit("id");
    reveal_strlit("uuid");
    reveal_strlit("tenant_id");
    reveal_strlit("organization_id");
    reveal_strlit("user_id");
    reveal_strlit("event_type");
    reveal_strlit("promotion_id");
    reveal_strlit("metadata_json");
    reveal_with_fuel(is_plain, 12);
    reveal_with_fuel(spells, 18);
    lemma_names();
    let s = queries::PROMOTION_EVENT_INSERT@;
    let known = Seq::<Seq<char>>::empty();
    let known = lemma_next(s, 0, 148, "id"@, known);
    let known = lemma_next(s, 151, 153, "uuid"@, known);
    let known = lemma_next(s, 158, 160, "tenant_id"@, known);
    let known = lemma_next(s, 170, 172, "organization_id"@, known);
    let known = lemma_next(s, 188, 190, "user_id"@, known);
    let known = lemma_next(s, 198, 200, "event_type"@, known);
    let known = lemma_next(s, 211, 226, "promotion_id"@, known);
    let known = lemma_next(s, 239, 241, "metadata_json"@, known);
    lemma_rest(s, 255, 263, known);
}

/// The parameters of [`queries::PROMOTION_STATS`].
#[verifier::rlimit(60)]
pub proof fn lemma_promotion_stats()
    ensures
        parameter_names(queries::PROMOTION_STATS@) == seq![
            "tenant_id"@,
            "organization_id"@,
            "promotion_id"@,
        ],
{
    reveal_strlit(
        "SELECT COUNT(*) FILTER (WHERE event_type = 'promotion_delivery') AS delivery_count, \
        COUNT(*) FILTER (WHERE event_type = 'promotion_click') AS click_count FROM \
        search_user_event WHERE tenant_id = :tenant_id AND organization_id = :organization_id \
        AND document_id = :promotion_id AND event_type IN ('promotion_delivery', \
        'promotion_click')",
    );
    reveal_strlit("tenant_id");
    reveal_strlit("organization_id");
    reveal_strlit("promotion_id");
    reveal_with_fuel(is_plain, 12);
    reveal_with_fuel(spells, 18);
    lemma_names();
    let s = queries::PROMOTION_STATS@;
    let known = Seq::<Seq<char>>::empty();
    let known = lemma_next(s, 0, 195, "tenant_id"@, known);
    let known = lemma_next(s, 205, 228, "organization_id"@, known);
    let known = lemma_next(s, 244, 263, "promotion_id"@, known);
    lemma_rest(s, 276, 336, known);
}

/// The parameters of [`queries::PROMOTION_LIST_ALL`].
#[verifier::rlimit(60)]
pub proof fn lemma_promotion_list_all()
    ensures
        parameter_names(queries::PROMOTION_LIST_ALL@) == seq![
            "tenant_id"@,
            "organization_id"@,
            "index_key"@,
            "limit"@,
            "offset"@,
        ],
{
    reveal_strlit(
        "SELECT id, uuid, tenant_id, organization_id, promotion_key, placement, index_key, \
        document_id, priority, rule_json, status, active_from, active_until, created_at, \
        updated_at, version, deleted_at, deleted_by FROM search_promotion WHERE tenant_id = \
        :tenant_id AND organization_id = :organization_id AND index_key = :index_key AND \
        deleted_at IS NULL ORDER BY priority DESC, updated_at DESC LIMIT :limit OFFSET :offset",
    );
    reveal_strlit("tenant_id");
    reveal_strlit("organization_id");
    reveal_strlit("index_key");
    reveal_strlit("limit");
    reveal_strlit("offset");
    reveal_with_fuel(is_plain, 12);
    reveal_with_fuel(spells, 18);
    lemma_names();
    let s = queries::PROMOTION_LIST_ALL@;
    let known = Seq::<Seq<char>>::empty();
    let known = lemma_next(s, 0, 247, "tenant_id"@, known);
    let known = lemma_next(s, 257, 280, "organization_id"@, known);
    let known = lemma_next(s, 296, 313, "index_key"@, known);
    let known = lemma_next(s, 323, 393, "limit"@, known);
    let known = lemma_next(s, 399, 407, "offset"@, known);
    lemma_rest(s, 414, 414, known);
}

/// The parameters of [`queries::PROMOTION_GET`].
#[verifier::rlimit(60)]
pub proof fn lemma_promotion_get()
    ensures
        parameter_names(queries::PROMOTION_GET@) == seq![
            "tenant_id"@,
            "organization_id"@,
            "promotion_key"@,
        ],
{
    reveal_strlit(
        "SELECT id, uuid, tenant_id, organization_id, promotion_key, placement, index_key, \
        document_id, priority, rule_json, status, active_from, active_until, created_at, \
        updated_at, version, deleted_at, deleted_by FROM search_promotion WHERE tenant_id = \
        :tenant_id AND organization_id = :organization_id AND promotion_key = :promotion_key \
        AND deleted_at IS NULL",
    );
    reveal_strlit("tenant_id");
    reveal_strlit("organization_id");
    reveal_strlit("promotion_key");
    reveal_with_fuel(is_plain, 12);
    reveal_with_fuel(spells, 18);
    lemma_names();
    let s = queries::PROMOTION_GET@;
    let known = Seq::<Seq<char>>::empty();
    let known = lemma_next(s, 0, 247, "tenant_id"@, known);
    let known = lemma_next(s, 257, 280, "organization_id"@, known);
    let known = lemma_next(s, 296, 317, "promotion_key"@, known);
    lemma_rest(s, 331, 354, known);
}

/// The parameters of [`queries::PROMOTION_UPDATE`].
#[verifier::rlimit(60)]
pub proof fn lemma_promotion_update()
    ensures
        parameter_names(queries::PROMOTION_UPDATE@) == seq![
            "placement"@,
            "document_id"@,
            "priority"@,
            "rule_json"@,
            "status"@,
            "active_from"@,
            "active_until"@,
            "tenant_id"@,
            "organization_id"@,
            "promotion_key"@,
        ],
{
    reveal_strlit(
        "UPDATE search_promotion SET placement = COALESCE(:placement, placement), document_id = \
        COALESCE(:document_id, document_id), priority = COALESCE(:priority, priority), \
        rule_json = COALESCE(:rule_json, rule_json), status = COALESCE(:status, status), \
        active_from = COALESCE(:active_from, active_from), active_until = \
        COALESCE(:active_until, active_until), updated_at = NOW(), version = version + 1 WHERE \
        tenant_id = :tenant_id AND organization_id = :organization_id AND promotion_key = \
        :promotion_key AND deleted_at IS NULL RETURNING id, uuid, tenant_id, organization_id, \
        promotion_key, placement, index_key, document_id, priority, rule_json, status, \
        active_from, active_until, created_at, updated_at, version, deleted_at, deleted_by",
    );
    reveal_strlit("placement");
    reveal_strlit("document_id");
    reveal_strlit("priority");
    reveal_strlit("rule_json");
    reveal_strlit("status");
    reveal_strlit("active_from");
    reveal_strlit("active_until");
    reveal_strlit("tenant_id");
    reveal_strlit("organization_id");
    reveal_strlit("promotion_key");
    reveal_with_fuel(is_plain, 12);
    reveal_with_fuel(spells, 18);
    lemma_names();
    let s = queries::PROMOTION_UPDATE@;
    let known = Seq::<Seq<char>>::empty();
    let known = lemma_next(s, 0, 49, "placement"@, known);
    let known = lemma_next(s, 59, 96, "document_id"@, known);
    let known = lemma_next(s, 108, 144, "priority"@, known);
    let known = lemma_next(s, 153, 187, "rule_json"@, known);
    let known = lemma_next(s, 197, 229, "status"@, known);
    let known = lemma_next(s, 236, 270, "active_from"@, known);
    let known = lemma_next(s, 282, 322, "active_until"@, known);
    let known = lemma_next(s, 335, 412, "tenant_id"@, known);
    let known = lemma_next(s, 422, 445, "organization_id"@, known);
    let known = lemma_next(s, 461, 482, "promotion_key"@, known);
    lemma_rest(s, 496, 729, known);
}

/// The parameters of [`queries::PROMOTION_DELETE`].
#[verifier::rlimit(60)]
pub proof fn lemma_promotion_delete()
    ensures
        parameter_names(queries::PROMOTION_DELETE@) == seq![
            "deleted_by"@,
            "tenant_id"@,
            "organization_id"@,
            "promotion_key"@,
        ],
{
    reveal_strlit(
        "UPDATE search_promotion SET deleted_at = NOW(), deleted_by = :deleted_by, version = \
        version + 1, updated_at = NOW() WHERE tenant_id = :tenant_id AND organization_id = \
        :organization_id AND promotion_key = :promotion_key AND deleted_at IS NULL",
    );
    reveal_strlit("deleted_by");
    reveal_strlit("tenant_id");
    reveal_strlit("organization_id");
    reveal_strlit("promotion_key");
    reveal_with_fuel(is_plain, 12);
    reveal_with_fuel(spells, 18);
    lemma_names();
    let s = queries::PROMOTION_DELETE@;
    let known = Seq::<Seq<char>>::empty();
    let known = lemma_next(s, 0, 61, "deleted_by"@, known);
    let known = lemma_next(s, 72, 134, "tenant_id"@, known);
    let known = lemma_next(s, 144, 167, "organization_id"@, known);
    let known = lemma_next(s, 183, 204, "promotion_key"@, known);
    lemma_rest(s, 218, 241, known);
}

} // verus!
