//! Service lists and method input schemas: the shapes the codec bridge
//! reports, and the shapes the user interface reads.

use vstd::prelude::*;

verus! {

/// A method as the codec bridge reports it.
#[derive(Debug)]
pub struct FfiMethod {
    pub name: String,
    pub full_name: String,
    pub input_type: String,
    pub output_type: String,
    /// "unary", "server_streaming", ...
    pub method_type: String,
}

/// A service as the codec bridge reports it.
#[derive(Debug)]
pub struct FfiService {
    pub name: String,
    pub full_name: String,
    pub source_path: Option<String>,
    pub methods: Vec<FfiMethod>,
}

/// The service list the codec bridge reports.
#[derive(Debug)]
pub struct FfiServiceListResponse {
    pub services: Vec<FfiService>,
}

/// A message field as the codec bridge reports it.
#[derive(Debug)]
pub struct FfiMessageField {
    pub name: String,
    pub json_name: String,
    pub kind: String,
    pub field_type: String,
    pub repeated: bool,
    pub required: bool,
    pub optional: bool,
    pub one_of: Option<String>,
    pub enum_values: Vec<String>,
    pub fields: Vec<FfiMessageField>,
    pub map: bool,
    pub map_key_type: Option<String>,
    pub map_value_kind: Option<String>,
    pub map_value_type: Option<String>,
    pub map_value_enum_values: Vec<String>,
    pub map_value_fields: Vec<FfiMessageField>,
}

/// The input schema of a method as the codec bridge reports it.
#[derive(Debug)]
pub struct FfiMethodInputSchema {
    pub message_type: String,
    pub fields: Vec<FfiMessageField>,
}

/// A method as the user interface reads it.
#[derive(Debug)]
pub struct Method {
    pub name: String,
    pub full_name: String,
    pub input_type: String,
    pub output_type: String,
    pub method_type: String,
}

/// A service as the user interface reads it.
#[derive(Debug)]
pub struct Service {
    pub name: String,
    pub full_name: String,
    pub source_path: Option<String>,
    pub methods: Vec<Method>,
}

/// The service list the user interface reads.
#[derive(Debug)]
pub struct ListServicesResponse {
    pub services: Vec<Service>,
}

/// A message field as the user interface reads it.
#[derive(Debug)]
pub struct MessageField {
    pub name: String,
    pub json_name: String,
    pub kind: String,
    pub field_type: String,
    pub repeated: bool,
    pub required: bool,
    pub optional: bool,
    pub one_of: Option<String>,
    pub enum_values: Vec<String>,
    pub fields: Vec<MessageField>,
    pub map: bool,
    pub map_key_type: Option<String>,
    pub map_value_kind: Option<String>,
    pub map_value_type: Option<String>,
    pub map_value_enum_values: Vec<String>,
    pub map_value_fields: Vec<MessageField>,
}

/// The input schema of a method as the user interface reads it.
#[derive(Debug)]
pub struct MethodInputSchemaResponse {
    pub message_type: String,
    pub fields: Vec<MessageField>,
}

/// Whether `m` carries the method `f`.
pub open spec fn method_mapped(f: FfiMethod, m: Method) -> bool {
    &&& m.name == f.name
    &&& m.full_name == f.full_name
    &&& m.input_type == f.input_type
    &&& m.output_type == f.output_type
    &&& m.method_type == f.method_type
}

/// Whether `m` carries the field `f`, its nested fields included.
pub open spec fn field_mapped(f: FfiMessageField, m: MessageField) -> bool
    decreases f,
{
    &&& m.name == f.name
    &&& m.json_name == f.json_name
    &&& m.kind == f.kind
    &&& m.field_type == f.field_type
    &&& m.repeated == f.repeated
    &&& m.required == f.required
    &&& m.optional == f.optional
    &&& m.one_of == f.one_of
    &&& m.enum_values == f.enum_values
    &&& m.map == f.map
    &&& m.map_key_type == f.map_key_type
    &&& m.map_value_kind == f.map_value_kind
    &&& m.map_value_type == f.map_value_type
    &&& m.map_value_enum_values == f.map_value_enum_values
    &&& m.fields@.len() == f.fields@.len()
    &&& forall|i: int| 0 <= i < f.fields@.len() ==> field_mapped(#[trigger] f.fields@[i], m.fields@[i])
    &&& m.map_value_fields@.len() == f.map_value_fields@.len()
    &&& forall|i: int| 0 <= i < f.map_value_fields@.len()
        ==> field_mapped(#[trigger] f.map_value_fields@[i], m.map_value_fields@[i])
}

/// Maps a method to the shape the user interface reads.
pub fn map_ffi_method(method: FfiMethod) -> (r: Method)
    ensures
        method_mapped(method, r),
{
    Method {
        name: method.name,
        full_name: method.full_name,
        input_type: method.input_type,
        output_type: method.output_type,
        method_type: method.method_type,
    }
}

/// Maps fields, one by one, to the shape the user interface reads.
fn map_ffi_message_fields(fields: Vec<FfiMessageField>, Ghost(parent): Ghost<FfiMessageField>) -> (r: Vec<MessageField>)
    requires
        forall|i: int| 0 <= i < fields@.len() ==> decreases_to!(parent => #[trigger] fields@[i]),
    ensures
        r@.len() == fields@.len(),
        forall|i: int| 0 <= i < fields@.len() ==> field_mapped(#[trigger] fields@[i], r@[i]),
    decreases parent, 1nat,
{
    let ghost src = fields@;
    let mut out: Vec<MessageField> = Vec::new();
    for x in it: fields.into_iter()
        invariant
            it.seq() == src,
            forall|i: int| 0 <= i < src.len() ==> decreases_to!(parent => #[trigger] src[i]),
            out@.len() == it.index(),
            forall|i: int| 0 <= i < out@.len() ==> field_mapped(#[trigger] src[i], out@[i]),
    {
        assert(decreases_to!(parent => src[it.index() as int]));
        out.push(map_ffi_message_field_within(x, Ghost(parent)));
    }
    out
}

/// Maps a field nested in `parent`.
fn map_ffi_message_field_within(field: FfiMessageField, Ghost(parent): Ghost<FfiMessageField>) -> (r: MessageField)
    requires
        decreases_to!(parent => field),
    ensures
        field_mapped(field, r),
    decreases parent, 0nat,
{
    map_ffi_message_field(field)
}

/// Maps a field, its nested fields included, to the shape the user
/// interface reads.
pub fn map_ffi_message_field(field: FfiMessageField) -> (r: MessageField)
    ensures
        field_mapped(field, r),
    decreases field, 2nat,
{
    let ghost whole = field;
    proof {
        assert forall|i: int| 0 <= i < whole.fields@.len() implies decreases_to!(whole => #[trigger] whole.fields@[i]) by {
            assert(decreases_to!(whole => whole.fields));
            assert(decreases_to!(whole.fields => whole.fields@));
            assert(decreases_to!(whole.fields@ => whole.fields@[i]));
        }
        assert forall|i: int| 0 <= i < whole.map_value_fields@.len() implies decreases_to!(whole => #[trigger] whole.map_value_fields@[i]) by {
            assert(decreases_to!(whole => whole.map_value_fields));
            assert(decreases_to!(whole.map_value_fields => whole.map_value_fields@));
            assert(decreases_to!(whole.map_value_fields@ => whole.map_value_fields@[i]));
        }
    }
    let fields = map_ffi_message_fields(field.fields, Ghost(whole));
    let map_value_fields = map_ffi_message_fields(field.map_value_fields, Ghost(whole));
    MessageField {
        name: field.name,
        json_name: field.json_name,
        kind: field.kind,
        field_type: field.field_type,
        repeated: field.repeated,
        required: field.required,
        optional: field.optional,
        one_of: field.one_of,
        enum_values: field.enum_values,
        fields,
        map: field.map,
        map_key_type: field.map_key_type,
        map_value_kind: field.map_value_kind,
        map_value_type: field.map_value_type,
        map_value_enum_values: field.map_value_enum_values,
        map_value_fields,
    }
}


/// Whether `s` carries the service `f`, its methods included.
pub open spec fn service_mapped(f: FfiService, s: Service) -> bool {
    &&& s.name == f.name
    &&& s.full_name == f.full_name
    &&& s.source_path == f.source_path
    &&& s.methods@.len() == f.methods@.len()
    &&& forall|i: int| 0 <= i < f.methods@.len() ==> method_mapped(#[trigger] f.methods@[i], s.methods@[i])
}

/// Maps a service, its methods included, to the shape the user interface
/// reads.
pub fn map_ffi_service(service: FfiService) -> (r: Service)
    ensures
        service_mapped(service, r),
{
    let ghost src = service.methods@;
    let mut methods: Vec<Method> = Vec::new();
    for m in it: service.methods.into_iter()
        invariant
            it.seq() == src,
            methods@.len() == it.index(),
            forall|i: int| 0 <= i < methods@.len() ==> method_mapped(#[trigger] src[i], methods@[i]),
    {
        methods.push(map_ffi_method(m));
    }
    Service { name: service.name, full_name: service.full_name, source_path: service.source_path, methods }
}

/// Maps the service list the codec bridge reports to the shape the user
/// interface reads, service by service in order.
pub fn map_ffi_services(list: FfiServiceListResponse) -> (r: ListServicesResponse)
    ensures
        r.services@.len() == list.services@.len(),
        forall|i: int| 0 <= i < list.services@.len() ==> service_mapped(#[trigger] list.services@[i], r.services@[i]),
{
    let ghost src = list.services@;
    let mut services: Vec<Service> = Vec::new();
    for s in it: list.services.into_iter()
        invariant
            it.seq() == src,
            services@.len() == it.index(),
            forall|i: int| 0 <= i < services@.len() ==> service_mapped(#[trigger] src[i], services@[i]),
    {
        services.push(map_ffi_service(s));
    }
    ListServicesResponse { services }
}

/// Maps the input schema the codec bridge reports to the shape the user
/// interface reads, field by field in order.
pub fn map_ffi_method_input_schema(schema: FfiMethodInputSchema) -> (r: MethodInputSchemaResponse)
    ensures
        r.message_type == schema.message_type,
        r.fields@.len() == schema.fields@.len(),
        forall|i: int| 0 <= i < schema.fields@.len() ==> field_mapped(#[trigger] schema.fields@[i], r.fields@[i]),
{
    let ghost src = schema.fields@;
    let mut fields: Vec<MessageField> = Vec::new();
    for f in it: schema.fields.into_iter()
        invariant
            it.seq() == src,
            fields@.len() == it.index(),
            forall|i: int| 0 <= i < fields@.len() ==> field_mapped(#[trigger] src[i], fields@[i]),
    {
        fields.push(map_ffi_message_field(f));
    }
    MethodInputSchemaResponse { message_type: schema.message_type, fields }
}

/// A mapped field carries the codec's flags of that field unchanged: it is
/// repeated exactly when the codec's field is, required, optional and a map
/// likewise, each flag independent of the others; and so do its nested
/// fields.
pub proof fn lemma_mapped_field_keeps_flags(f: FfiMessageField, m: MessageField)
    requires
        field_mapped(f, m),
    ensures
        m.repeated == f.repeated,
        m.required == f.required,
        m.optional == f.optional,
        m.map == f.map,
        m.name == f.name,
        m.kind == f.kind,
        m.field_type == f.field_type,
        m.fields@.len() == f.fields@.len(),
        forall|i: int| 0 <= i < f.fields@.len() ==> (#[trigger] m.fields@[i]).repeated == f.fields@[i].repeated
            && m.fields@[i].required == f.fields@[i].required,
{
    assert forall|i: int| 0 <= i < f.fields@.len() implies (#[trigger] m.fields@[i]).repeated
        == f.fields@[i].repeated && m.fields@[i].required == f.fields@[i].required by {
        assert(field_mapped(f.fields@[i], m.fields@[i]));
    }
}

/// Each field of a method's mapped input schema is repeated exactly when
/// the codec's field is, and required exactly when the codec's field is.
pub proof fn lemma_schema_keeps_field_flags(schema: FfiMethodInputSchema, r: MethodInputSchemaResponse)
    requires
        r.fields@.len() == schema.fields@.len(),
        forall|i: int| 0 <= i < schema.fields@.len() ==> field_mapped(#[trigger] schema.fields@[i], r.fields@[i]),
    ensures
        forall|i: int| 0 <= i < schema.fields@.len() ==> (#[trigger] r.fields@[i]).repeated
            == schema.fields@[i].repeated && r.fields@[i].required == schema.fields@[i].required
            && r.fields@[i].name == schema.fields@[i].name,
{
    assert forall|i: int| 0 <= i < schema.fields@.len() implies (#[trigger] r.fields@[i]).repeated
        == schema.fields@[i].repeated && r.fields@[i].required == schema.fields@[i].required
        && r.fields@[i].name == schema.fields@[i].name by {
        lemma_mapped_field_keeps_flags(schema.fields@[i], r.fields@[i]);
    }
}

} // verus!
