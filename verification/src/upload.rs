//! Uploading a document: the form, the upload command, the replies.
use vstd::prelude::*;
use vstd::string::StringExecFns;
use vstd::utf8::{decode_utf8, valid_utf8};

use crate::clock::now_id;
use crate::ids::{new_uuid, random_uuid_text};
use crate::spi::SearchProviderContext;
use crate::text::{
    denoted_i64, lemma_numeral_reads_back, optional_view, parse_i64, same_text, signed_decimal,
    signed_numeral,
};

verus! {

// ---------------------------------------------------------------------------
// The form
// ---------------------------------------------------------------------------

/// The text of bytes, with a replacement character for what is not UTF-8.
pub uninterp spec fn lossy_text(bytes: Seq<u8>) -> Seq<char>;

/// `String::from_utf8_lossy`: the text that the bytes encode; where they are not valid
/// UTF-8, the invalid parts are replaced, and the text is only named.
#[verifier::external_body]
fn decode_lossy(bytes: &Vec<u8>) -> (text: String)
    ensures
        text@ == lossy_text(bytes@),
        valid_utf8(bytes@) ==> text@ == decode_utf8(bytes@),
{
    String::from_utf8_lossy(bytes).to_string()
}

/// The text of a field: what its bytes encode, where they are UTF-8.
pub open spec fn field_text(bytes: Seq<u8>) -> Seq<char> {
    if valid_utf8(bytes) {
        decode_utf8(bytes)
    } else {
        lossy_text(bytes)
    }
}

/// The text of a field.
fn read_text(bytes: &Vec<u8>) -> (text: String)
    ensures
        text@ == field_text(bytes@),
{
    decode_lossy(bytes)
}

/// A field of the form.
#[derive(Debug)]
pub struct FormField {
    pub name: Option<String>,
    pub file_name: Option<String>,
    pub content_type: Option<String>,
    pub bytes: Vec<u8>,
}

/// What came of reading the next field.
#[derive(Debug)]
pub enum FieldEvent {
    /// The field.
    Field(FormField),
    /// The field could not be read, and why.
    FieldUnreadable(String),
    /// The content of the field could not be read, and why.
    BytesUnreadable(String),
}

/// What the fields of the form say.
#[derive(Debug)]
pub struct ParsedUploadForm {
    pub index_key: Option<String>,
    pub document_id: Option<String>,
    pub tenant_id: Option<i64>,
    pub organization_id: Option<i64>,
    pub file_name: Option<String>,
    pub content_type: Option<String>,
    pub bytes: Option<Vec<u8>>,
}

/// What a form says.
#[verifier::ext_equal]
pub struct UploadForm {
    pub index_key: Option<Seq<char>>,
    pub document_id: Option<Seq<char>>,
    pub tenant_id: Option<i64>,
    pub organization_id: Option<i64>,
    pub file_name: Option<Seq<char>>,
    pub content_type: Option<Seq<char>>,
    pub bytes: Option<Seq<u8>>,
}

impl View for ParsedUploadForm {
    type V = UploadForm;

    open spec fn view(&self) -> UploadForm {
        UploadForm {
            index_key: optional_view(self.index_key),
            document_id: optional_view(self.document_id),
            tenant_id: self.tenant_id,
            organization_id: self.organization_id,
            file_name: optional_view(self.file_name),
            content_type: optional_view(self.content_type),
            bytes: match self.bytes {
                Some(bytes) => Some(bytes@),
                None => None,
            },
        }
    }
}

/// A form without fields.
pub open spec fn empty_form() -> UploadForm {
    UploadForm {
        index_key: None,
        document_id: None,
        tenant_id: None,
        organization_id: None,
        file_name: None,
        content_type: None,
        bytes: None,
    }
}

/// The field is of that name.
pub open spec fn is_named(field: FormField, name: Seq<char>) -> bool {
    field.name is Some && field.name->0@ == name
}

/// The form with one more field: it stands in the place of an earlier one of its name.
/// A field of another name says nothing.
pub open spec fn with_field(form: UploadForm, field: FormField) -> UploadForm {
    if is_named(field, "index_key"@) {
        UploadForm { index_key: Some(field_text(field.bytes@)), ..form }
    } else if is_named(field, "document_id"@) {
        UploadForm { document_id: Some(field_text(field.bytes@)), ..form }
    } else if is_named(field, "tenant_id"@) {
        UploadForm { tenant_id: denoted_i64(field_text(field.bytes@)), ..form }
    } else if is_named(field, "organization_id"@) {
        UploadForm { organization_id: denoted_i64(field_text(field.bytes@)), ..form }
    } else if is_named(field, "file"@) {
        UploadForm {
            file_name: optional_view(field.file_name),
            content_type: optional_view(field.content_type),
            bytes: Some(field.bytes@),
            ..form
        }
    } else {
        form
    }
}

/// The fields among what was read.
pub open spec fn form_of(events: Seq<FieldEvent>) -> UploadForm
    decreases events.len(),
{
    if events.len() == 0 {
        empty_form()
    } else {
        match events.last() {
            FieldEvent::Field(field) => with_field(form_of(events.drop_last()), field),
            _ => form_of(events.drop_last()),
        }
    }
}

/// The message for a field that could not be read.
pub open spec fn unreadable_message(event: FieldEvent) -> Seq<char> {
    match event {
        FieldEvent::Field(_) => ""@,
        FieldEvent::FieldUnreadable(reason) => "read multipart field failed: "@ + reason@,
        FieldEvent::BytesUnreadable(reason) => "read multipart bytes failed: "@ + reason@,
    }
}

/// The names that count are different ones.
proof fn lemma_names_differ()
    ensures
        "index_key"@ != "document_id"@,
        "index_key"@ != "tenant_id"@,
        "index_key"@ != "organization_id"@,
        "index_key"@ != "file"@,
        "document_id"@ != "tenant_id"@,
        "document_id"@ != "organization_id"@,
        "document_id"@ != "file"@,
        "tenant_id"@ != "organization_id"@,
        "tenant_id"@ != "file"@,
        "organization_id"@ != "file"@,
{
    reveal_strlit("index_key");
    reveal_strlit("document_id");
    reveal_strlit("tenant_id");
    reveal_strlit("organization_id");
    reveal_strlit("file");
    assert("index_key"@.len() == 9 && "index_key"@[0] == 'i');
    assert("tenant_id"@.len() == 9 && "tenant_id"@[0] == 't');
    assert("document_id"@.len() == 11);
    assert("organization_id"@.len() == 15);
    assert("file"@.len() == 4);
}

/// Whether the field is of that name.
fn has_name(field: &FormField, name: &str) -> (named: bool)
    ensures
        named == is_named(*field, name@),
{
    match &field.name {
        Some(own) => same_text(own.as_str(), name),
        None => false,
    }
}

impl ParsedUploadForm {
    /// A form without fields.
    pub fn new() -> (form: ParsedUploadForm)
        ensures
            form@ == empty_form(),
    {
        ParsedUploadForm {
            index_key: None,
            document_id: None,
            tenant_id: None,
            organization_id: None,
            file_name: None,
            content_type: None,
            bytes: None,
        }
    }

    /// Takes one more field into the form.
    pub fn accept(&mut self, field: FormField)
        ensures
            final(self)@ == with_field(old(self)@, field),
    {
        if has_name(&field, "index_key") {
            self.index_key = Some(read_text(&field.bytes));
        } else if has_name(&field, "document_id") {
            self.document_id = Some(read_text(&field.bytes));
        } else if has_name(&field, "tenant_id") {
            self.tenant_id = parse_i64(read_text(&field.bytes).as_str());
        } else if has_name(&field, "organization_id") {
            self.organization_id = parse_i64(read_text(&field.bytes).as_str());
        } else if has_name(&field, "file") {
            self.file_name = field.file_name;
            self.content_type = field.content_type;
            self.bytes = Some(field.bytes);
        }
    }
}

/// The form that the fields make, in the order in which they were read, or the message
/// for the first that could not be.
pub fn parse_upload_form(events: Vec<FieldEvent>) -> (form: Result<ParsedUploadForm, String>)
    ensures
        match form {
            Ok(f) => f@ == form_of(events@) && forall|i: int|
                0 <= i < events@.len() ==> (#[trigger] events@[i]) is Field,
            Err(message) => exists|i: int|
                0 <= i < events@.len() && !((#[trigger] events@[i]) is Field) && message@
                    == unreadable_message(events@[i]) && forall|k: int|
                    0 <= k < i ==> (#[trigger] events@[k]) is Field,
        },
{
    let ghost all = events@;
    let mut form: ParsedUploadForm = ParsedUploadForm::new();
    assert(all.take(0) == Seq::<FieldEvent>::empty());
    for event in it: events
        invariant
            it.seq() == all,
            form@ == form_of(all.take(it.index() as int)),
            forall|k: int| 0 <= k < it.index() ==> (#[trigger] all[k]) is Field,
    {
        proof {
            let i = it.index() as int;
            assert(event == all[i]);
            assert(all.take(i + 1).drop_last() == all.take(i));
            assert(all.take(i + 1).last() == all[i]);
        }
        match event {
            FieldEvent::Field(field) => {
                form.accept(field);
            },
            FieldEvent::FieldUnreadable(reason) => {
                let mut message: String = String::from_str("read multipart field failed: ");
                message.append(reason.as_str());
                return Err(message);
            },
            FieldEvent::BytesUnreadable(reason) => {
                let mut message: String = String::from_str("read multipart bytes failed: ");
                message.append(reason.as_str());
                return Err(message);
            },
        }
    }
    assert(all.take(all.len() as int) == all);
    Ok(form)
}

/// The events from position `i` on hold no field of that name.
pub open spec fn lacks_field(events: Seq<FieldEvent>, i: int, name: Seq<char>) -> bool {
    forall|k: int|
        i <= k < events.len() && (#[trigger] events[k]) is Field ==> !is_named(
            events[k]->Field_0,
            name,
        )
}

/// The last field of a name is the one that counts.
pub proof fn lemma_last_field_counts(events: Seq<FieldEvent>, i: int)
    requires
        0 <= i < events.len(),
        events[i] is Field,
    ensures
        ({
            let field = events[i]->Field_0;
            let text = field_text(field.bytes@);
            let form = form_of(events);
            &&& is_named(field, "index_key"@) && lacks_field(events, i + 1, "index_key"@)
                ==> form.index_key == Some(text)
            &&& is_named(field, "document_id"@) && lacks_field(events, i + 1, "document_id"@)
                ==> form.document_id == Some(text)
            &&& is_named(field, "tenant_id"@) && lacks_field(events, i + 1, "tenant_id"@)
                ==> form.tenant_id == denoted_i64(text)
            &&& is_named(field, "organization_id"@) && lacks_field(
                events,
                i + 1,
                "organization_id"@,
            ) ==> form.organization_id == denoted_i64(text)
            &&& is_named(field, "file"@) && lacks_field(events, i + 1, "file"@) ==> form.file_name
                == optional_view(field.file_name) && form.content_type == optional_view(
                field.content_type,
            ) && form.bytes == Some(field.bytes@)
        }),
    decreases events.len(),
{
    lemma_names_differ();
    if i < events.len() - 1 {
        let before = events.drop_last();
        lemma_last_field_counts(before, i);
        assert(before[i] == events[i]);
        assert forall|name: Seq<char>| #[trigger] lacks_field(events, i + 1, name) implies lacks_field(
            before,
            i + 1,
            name,
        ) by {
            assert forall|k: int|
                i + 1 <= k < before.len() && (#[trigger] before[k]) is Field implies !is_named(
                before[k]->Field_0,
                name,
            ) by {
                assert(before[k] == events[k]);
            }
        }
        assert(events.last() == events[events.len() - 1]);
    }
}

// ---------------------------------------------------------------------------
// The request
// ---------------------------------------------------------------------------

/// A document to upload.
#[derive(Debug)]
pub struct UploadDocumentRequest {
    pub file_name: String,
    pub content_type: String,
    pub bytes: Vec<u8>,
    pub app_resource_type: String,
    pub app_resource_id: String,
}

/// What is to be done for an upload: the document is uploaded and written to the index.
#[derive(Debug)]
pub struct UploadJob {
    pub context: SearchProviderContext,
    pub index_key: String,
    pub document_id: String,
    pub request: UploadDocumentRequest,
}

/// An answer other than success: a status and a text.
#[derive(Debug, PartialEq, Eq)]
pub struct Refusal {
    pub status: u16,
    pub message: String,
}

/// Whether the form has all that is required.
pub open spec fn is_complete(form: UploadForm) -> bool {
    form.index_key is Some && form.document_id is Some && form.file_name is Some
        && form.bytes is Some
}

/// The message for the first required field that is missing.
pub open spec fn missing_message(form: UploadForm) -> Seq<char> {
    if form.index_key is None {
        "missing required field: index_key"@
    } else if form.document_id is None {
        "missing required field: document_id"@
    } else {
        "missing required field: file"@
    }
}

/// The number, or zero.
pub open spec fn number_or_zero(n: Option<i64>) -> i64 {
    match n {
        Some(n) => n,
        None => 0,
    }
}

/// The job that a form asks for.
pub open spec fn is_job_of(job: UploadJob, form: UploadForm) -> bool {
    &&& job.context.tenant_id == number_or_zero(form.tenant_id)
    &&& job.context.organization_id == number_or_zero(form.organization_id)
    &&& job.context.user_id is None
    &&& job.context.request_id is None
    &&& Some(job.index_key@) == form.index_key
    &&& Some(job.document_id@) == form.document_id
    &&& Some(job.request.file_name@) == form.file_name
    &&& job.request.content_type@ == match form.content_type {
        Some(content_type) => content_type,
        None => "application/octet-stream"@,
    }
    &&& Some(job.request.bytes@) == form.bytes
    &&& job.request.app_resource_type@ == "search_document"@
    &&& job.request.app_resource_id@ == job.document_id@
}

fn refuse(message: &str) -> (refusal: Refusal)
    ensures
        refusal.status == 400,
        refusal.message@ == message@,
{
    Refusal { status: 400, message: message.to_owned() }
}

/// The job that a form asks for, or why there is none: the form could not be read, or
/// something required is missing.
pub fn upload_job(form: Result<ParsedUploadForm, String>) -> (job: Result<UploadJob, Refusal>)
    ensures
        match job {
            Ok(j) => form is Ok && is_complete(form->Ok_0@) && is_job_of(j, form->Ok_0@),
            Err(refusal) => refusal.status == 400 && match form {
                Ok(f) => !is_complete(f@) && refusal.message@ == missing_message(f@),
                Err(message) => refusal.message@ == "invalid upload form: "@ + message@,
            },
        },
{
    let form: ParsedUploadForm = match form {
        Ok(form) => form,
        Err(reason) => {
            let mut message: String = String::from_str("invalid upload form: ");
            message.append(reason.as_str());
            return Err(Refusal { status: 400, message });
        },
    };
    let index_key: String = match form.index_key {
        Some(index_key) => index_key,
        None => {
            return Err(refuse("missing required field: index_key"));
        },
    };
    let document_id: String = match form.document_id {
        Some(document_id) => document_id,
        None => {
            return Err(refuse("missing required field: document_id"));
        },
    };
    let file_name: String = match form.file_name {
        Some(file_name) => file_name,
        None => {
            return Err(refuse("missing required field: file"));
        },
    };
    let bytes: Vec<u8> = match form.bytes {
        Some(bytes) => bytes,
        None => {
            return Err(refuse("missing required field: file"));
        },
    };
    let content_type: String = match form.content_type {
        Some(content_type) => content_type,
        None => "application/octet-stream".to_owned(),
    };
    let context: SearchProviderContext = SearchProviderContext {
        tenant_id: match form.tenant_id {
            Some(id) => id,
            None => 0,
        },
        organization_id: match form.organization_id {
            Some(id) => id,
            None => 0,
        },
        user_id: None,
        request_id: None,
    };
    let app_resource_id: String = document_id.clone();
    Ok(
        UploadJob {
            context,
            index_key,
            document_id,
            request: UploadDocumentRequest {
                file_name,
                content_type,
                bytes,
                app_resource_type: "search_document".to_owned(),
                app_resource_id,
            },
        },
    )
}

/// The answer to an upload that was carried out.
#[derive(Debug, PartialEq, Eq)]
pub struct UploadDocumentResponse {
    pub document_id: String,
    pub index_key: String,
}

/// The answer to an upload, by what came of it.
pub fn upload_reply(document_id: String, index_key: String, outcome: Result<(), String>) -> (reply: Result<
    UploadDocumentResponse,
    Refusal,
>)
    ensures
        match reply {
            Ok(response) => outcome is Ok && response.document_id == document_id
                && response.index_key == index_key,
            Err(refusal) => outcome is Err && refusal.status == 500 && refusal.message@
                == "ingest document failed: "@ + outcome->Err_0@,
        },
{
    match outcome {
        Ok(_) => Ok(UploadDocumentResponse { document_id, index_key }),
        Err(reason) => {
            let mut message: String = String::from_str("ingest document failed: ");
            message.append(reason.as_str());
            Err(Refusal { status: 500, message })
        },
    }
}

// ---------------------------------------------------------------------------
// The upload
// ---------------------------------------------------------------------------

/// The size of the parts that a document is uploaded in: five mebibytes.
pub const CHUNK_SIZE_BYTES: i64 = 5 * 1024 * 1024;

/// On whose behalf a document is uploaded: the system, in the name of an operator.
#[derive(Debug)]
pub enum UploaderActor {
    System { operator_id: String },
}

/// Where a document is uploaded to: the upload space of the tenant.
#[derive(Debug)]
pub enum UploaderTarget {
    AutoUploadSpace { parent_node_id: Option<String> },
}

/// How long a document is kept.
#[derive(Debug, Clone, Copy, PartialEq, Eq, Structural)]
pub enum UploaderRetention {
    LongTerm,
}

/// The description of an upload.
#[derive(Debug)]
pub struct PrepareUploaderUploadCommand {
    pub id: String,
    pub task_id: String,
    pub tenant_id: String,
    pub organization_id: Option<String>,
    pub actor: UploaderActor,
    pub app_id: String,
    pub app_resource_type: String,
    pub app_resource_id: String,
    pub scene: Option<String>,
    pub source: Option<String>,
    pub upload_profile_code: String,
    pub file_fingerprint: String,
    pub original_file_name: String,
    pub content_type: String,
    pub content_length: i64,
    pub chunk_size_bytes: i64,
    pub target: UploaderTarget,
    pub retention: UploaderRetention,
    pub operator_id: String,
    pub now_epoch_ms: i64,
}

/// An upload: its description and the content.
#[derive(Debug)]
pub struct UploadBytesCommand {
    pub prepare: PrepareUploaderUploadCommand,
    pub body: Vec<u8>,
    pub uploaded_at_epoch_ms: i64,
}

/// The command uploads the document of the request for the tenant and the organization
/// of the context. An organization that is not positive is none.
pub open spec fn uploads(
    command: UploadBytesCommand,
    context: SearchProviderContext,
    request: UploadDocumentRequest,
    app_id: Seq<char>,
    fingerprint: Seq<char>,
) -> bool {
    let prepare = command.prepare;
    &&& prepare.tenant_id@ == signed_decimal(context.tenant_id as int)
    &&& optional_view(prepare.organization_id) == if context.organization_id > 0 {
        Some(signed_decimal(context.organization_id as int))
    } else {
        None
    }
    &&& prepare.actor->operator_id@ == "sdkwork-search"@
    &&& prepare.operator_id@ == "sdkwork-search"@
    &&& prepare.app_id@ == app_id
    &&& prepare.app_resource_type@ == request.app_resource_type@
    &&& prepare.app_resource_id@ == request.app_resource_id@
    &&& optional_view(prepare.scene) == Some("search"@)
    &&& prepare.source is None
    &&& prepare.upload_profile_code@ == "document"@
    &&& prepare.file_fingerprint@ == fingerprint
    &&& prepare.original_file_name@ == request.file_name@
    &&& prepare.content_type@ == request.content_type@
    &&& prepare.content_length == request.bytes@.len() as i64
    &&& prepare.chunk_size_bytes == 5242880
    &&& prepare.target->parent_node_id is None
    &&& prepare.retention == UploaderRetention::LongTerm
    &&& command.body@ == request.bytes@
    &&& command.uploaded_at_epoch_ms == prepare.now_epoch_ms
}

/// The command that uploads a document as `id` in the task `task_id` at a time. The
/// fingerprint is that of the content.
pub fn upload_command_as(
    context: &SearchProviderContext,
    request: UploadDocumentRequest,
    app_id: &str,
    fingerprint: String,
    id: String,
    task_id: String,
    now_ms: i64,
) -> (command: UploadBytesCommand)
    ensures
        uploads(command, *context, request, app_id@, fingerprint@),
        command.prepare.id == id,
        command.prepare.task_id == task_id,
        command.prepare.now_epoch_ms == now_ms,
{
    let content_length: i64 = request.bytes.len() as i64;
    let prepare: PrepareUploaderUploadCommand = PrepareUploaderUploadCommand {
        id,
        task_id,
        tenant_id: signed_numeral(context.tenant_id),
        organization_id: if context.organization_id > 0 {
            Some(signed_numeral(context.organization_id))
        } else {
            None
        },
        actor: UploaderActor::System { operator_id: "sdkwork-search".to_owned() },
        app_id: app_id.to_owned(),
        app_resource_type: request.app_resource_type,
        app_resource_id: request.app_resource_id,
        scene: Some("search".to_owned()),
        source: None,
        upload_profile_code: "document".to_owned(),
        file_fingerprint: fingerprint,
        original_file_name: request.file_name,
        content_type: request.content_type,
        content_length,
        chunk_size_bytes: CHUNK_SIZE_BYTES,
        target: UploaderTarget::AutoUploadSpace { parent_node_id: None },
        retention: UploaderRetention::LongTerm,
        operator_id: "sdkwork-search".to_owned(),
        now_epoch_ms: now_ms,
    };
    UploadBytesCommand { prepare, body: request.bytes, uploaded_at_epoch_ms: now_ms }
}

/// The command that uploads a document now, under new names. The fingerprint is that of
/// the content.
pub fn upload_command(
    context: &SearchProviderContext,
    request: UploadDocumentRequest,
    app_id: &str,
    fingerprint: String,
) -> (command: UploadBytesCommand)
    ensures
        uploads(command, *context, request, app_id@, fingerprint@),
        random_uuid_text(command.prepare.id@),
        random_uuid_text(command.prepare.task_id@),
        command.prepare.now_epoch_ms >= 0,
{
    let now_ms: i64 = now_id();
    let id: String = new_uuid();
    let task_id: String = new_uuid();
    upload_command_as(context, request, app_id, fingerprint, id, task_id, now_ms)
}

// ---------------------------------------------------------------------------
// Laws
// ---------------------------------------------------------------------------

/// A form of which no field was read says nothing, and a field of which none was read stays
/// unset.
pub proof fn lemma_unread_field_is_unset(events: Seq<FieldEvent>)
    ensures
        lacks_field(events, 0, "index_key"@) ==> form_of(events).index_key is None,
        lacks_field(events, 0, "document_id"@) ==> form_of(events).document_id is None,
        lacks_field(events, 0, "tenant_id"@) ==> form_of(events).tenant_id is None,
        lacks_field(events, 0, "organization_id"@) ==> form_of(events).organization_id is None,
        lacks_field(events, 0, "file"@) ==> form_of(events).file_name is None && form_of(
            events,
        ).content_type is None && form_of(events).bytes is None,
    decreases events.len(),
{
    lemma_names_differ();
    if events.len() > 0 {
        let before = events.drop_last();
        lemma_unread_field_is_unset(before);
        assert forall|name: Seq<char>| #[trigger] lacks_field(events, 0, name) implies lacks_field(
            before,
            0,
            name,
        ) by {
            assert forall|k: int|
                0 <= k < before.len() && (#[trigger] before[k]) is Field implies !is_named(
                before[k]->Field_0,
                name,
            ) by {
                assert(before[k] == events[k]);
            }
        }
        assert(events.last() == events[events.len() - 1]);
    }
}

/// A form is what its fields say: the index, the document, the tenant and the organization by
/// their own fields, and the file with its name and its type by one field.
pub proof fn lemma_view_of_a_form(form: ParsedUploadForm)
    ensures
        form.index_key is Some ==> form@.index_key == Some(form.index_key->0@),
        form.index_key is None ==> form@.index_key is None,
        form.document_id is Some ==> form@.document_id == Some(form.document_id->0@),
        form.document_id is None ==> form@.document_id is None,
        form@.tenant_id == form.tenant_id,
        form@.organization_id == form.organization_id,
        form.file_name is Some ==> form@.file_name == Some(form.file_name->0@),
        form.file_name is None ==> form@.file_name is None,
        form.content_type is Some ==> form@.content_type == Some(form.content_type->0@),
        form.content_type is None ==> form@.content_type is None,
        form.bytes is Some ==> form@.bytes == Some(form.bytes->0@),
        form.bytes is None ==> form@.bytes is None,
{
}

/// A form needs its index, its document and a file with a name. Where something is missing,
/// it is told: first the index, then the document, then the file.
pub proof fn lemma_what_a_form_needs(form: UploadForm)
    ensures
        is_complete(form) <==> !(form.index_key is None || form.document_id is None
            || form.file_name is None || form.bytes is None),
        form.index_key is None ==> missing_message(form) == "missing required field: index_key"@,
        form.index_key is Some && form.document_id is None ==> missing_message(form)
            == "missing required field: document_id"@,
        form.index_key is Some && form.document_id is Some && !is_complete(form)
            ==> missing_message(form) == "missing required field: file"@,
{
}

/// A job uploads the file of its form, byte by byte, for the document, the index, the tenant
/// and the organization of the form. A tenant or an organization that the form does not name
/// is zero, and a type that it does not name is that of any file.
pub proof fn lemma_job_is_that_of_the_form(job: UploadJob, form: UploadForm)
    requires
        is_job_of(job, form),
    ensures
        form.tenant_id is Some ==> job.context.tenant_id == form.tenant_id->0,
        form.tenant_id is None ==> job.context.tenant_id == 0,
        form.organization_id is Some ==> job.context.organization_id == form.organization_id->0,
        form.organization_id is None ==> job.context.organization_id == 0,
        job.context.user_id is None,
        job.context.request_id is None,
        form.index_key is Some ==> job.index_key@ == form.index_key->0,
        form.document_id is Some ==> job.document_id@ == form.document_id->0
            && job.request.app_resource_id@ == form.document_id->0,
        job.request.app_resource_type@ == "search_document"@,
        form.file_name is Some ==> job.request.file_name@ == form.file_name->0,
        form.content_type is Some ==> job.request.content_type@ == form.content_type->0,
        form.content_type is None ==> job.request.content_type@ == "application/octet-stream"@,
        form.bytes is Some ==> job.request.bytes@ == form.bytes->0,
{
}

/// The message for what could not be read tells the reason, and whether it was the field or
/// its content.
pub proof fn lemma_unreadable_is_told(event: FieldEvent)
    ensures
        event is FieldUnreadable ==> unreadable_message(event) == "read multipart field failed: "@
            + event->FieldUnreadable_0@,
        event is BytesUnreadable ==> unreadable_message(event) == "read multipart bytes failed: "@
            + event->BytesUnreadable_0@,
{
}

/// An upload carries the whole file, in its own name and type and with its own length, for
/// the tenant of the context, which can be read back from it; and for the organization where
/// there is one. It is kept for long, in the upload space, in parts of five mebibytes, under
/// the resource of the request.
pub proof fn lemma_upload_is_that_of_the_request(
    command: UploadBytesCommand,
    context: SearchProviderContext,
    request: UploadDocumentRequest,
    app_id: Seq<char>,
    fingerprint: Seq<char>,
)
    requires
        uploads(command, context, request, app_id, fingerprint),
    ensures
        command.body@ == request.bytes@,
        request.bytes@.len() <= i64::MAX ==> command.prepare.content_length == request.bytes@.len(),
        command.prepare.original_file_name@ == request.file_name@,
        command.prepare.content_type@ == request.content_type@,
        command.prepare.app_id@ == app_id,
        command.prepare.app_resource_type@ == request.app_resource_type@,
        command.prepare.app_resource_id@ == request.app_resource_id@,
        command.prepare.file_fingerprint@ == fingerprint,
        denoted_i64(command.prepare.tenant_id@) == Some(context.tenant_id),
        context.organization_id > 0 ==> command.prepare.organization_id is Some && denoted_i64(
            command.prepare.organization_id->0@,
        ) == Some(context.organization_id),
        context.organization_id <= 0 ==> command.prepare.organization_id is None,
        command.prepare.actor->operator_id@ == command.prepare.operator_id@,
        command.prepare.operator_id@ == "sdkwork-search"@,
        command.prepare.scene is Some && command.prepare.scene->0@ == "search"@,
        command.prepare.source is None,
        command.prepare.upload_profile_code@ == "document"@,
        command.prepare.chunk_size_bytes == 5 * 1024 * 1024,
        command.prepare.target->parent_node_id is None,
        command.prepare.retention is LongTerm,
        command.uploaded_at_epoch_ms == command.prepare.now_epoch_ms,
{
    lemma_numeral_reads_back(context.tenant_id);
    lemma_numeral_reads_back(context.organization_id);
}

/// A field changes what is of its name and nothing else, and a field of any other name changes
/// nothing. A form starts with nothing set.
pub proof fn lemma_field_sets_its_own(form: UploadForm, field: FormField)
    ensures
        ({
            let after = with_field(form, field);
            let text = field_text(field.bytes@);
            &&& is_named(field, "index_key"@) ==> after == (UploadForm {
                index_key: Some(text),
                ..form
            })
            &&& is_named(field, "document_id"@) ==> after == (UploadForm {
                document_id: Some(text),
                ..form
            })
            &&& is_named(field, "tenant_id"@) ==> after == (UploadForm {
                tenant_id: denoted_i64(text),
                ..form
            })
            &&& is_named(field, "organization_id"@) ==> after == (UploadForm {
                organization_id: denoted_i64(text),
                ..form
            })
            &&& is_named(field, "file"@) ==> after.bytes == Some(field.bytes@) && (
            field.file_name is Some ==> after.file_name == Some(field.file_name->0@)) && (
            field.file_name is None ==> after.file_name is None) && (field.content_type is Some
                ==> after.content_type == Some(field.content_type->0@)) && (
            field.content_type is None ==> after.content_type is None) && after.index_key
                == form.index_key && after.document_id == form.document_id && after.tenant_id
                == form.tenant_id && after.organization_id == form.organization_id
            &&& field.name is None ==> after == form
            &&& field.name is Some && field.name->0@ != "index_key"@ && field.name->0@
                != "document_id"@ && field.name->0@ != "tenant_id"@ && field.name->0@
                != "organization_id"@ && field.name->0@ != "file"@ ==> after == form
        }),
        empty_form().index_key is None,
        empty_form().document_id is None,
        empty_form().tenant_id is None,
        empty_form().organization_id is None,
        empty_form().file_name is None,
        empty_form().content_type is None,
        empty_form().bytes is None,
{
    lemma_names_differ();
}

/// A field is of a name where it says so, and a field without a name is of none.
pub proof fn lemma_name_of_a_field(field: FormField, name: Seq<char>)
    ensures
        field.name is None ==> !is_named(field, name),
        field.name is Some ==> (is_named(field, name) <==> field.name->0@ == name),
{
}

/// The text of a field is what its bytes encode, wherever they are UTF-8.
pub proof fn lemma_text_of_a_field(bytes: Seq<u8>)
    requires
        valid_utf8(bytes),
    ensures
        field_text(bytes) == decode_utf8(bytes),
{
}

} // verus!
