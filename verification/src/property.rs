//! Export directives on a class's fields, and what they turn into at registration.
//!
//! A directive says, for one field, whether the host gets a getter and a setter for it,
//! whether those are synthesized or written by the user, and which editor hint it shows.
//! [`make_exports_impl`] turns the directives of a whole class into the accessors to
//! synthesize and the registration steps to run, in the order of the fields.

use vstd::prelude::*;
use crate::kv_parser::{
    spec_handle_any, spec_handle_expr_required, spec_handle_ident, spec_ident, KvParser,
    ParseError, ParseErrorKind, ParseErrorView, ParseResult,
};
use crate::property_info::PROPERTY_USAGE_DEFAULT;
use crate::tokens::{Tokens, TokenView};

verus! {

/// What a directive says about one direction of access.
#[derive(Debug, PartialEq, Eq)]
pub enum GetterSetter {
    /// No accessor in this direction: the host cannot read (or write) the field.
    Omitted,
    /// A trivial accessor is synthesized.
    Generated,
    /// The user wrote the accessor; this is its identifier.
    Custom(String),
}

/// The view of a [`GetterSetter`].
pub enum GetterSetterView {
    Omitted,
    Generated,
    Custom(Seq<char>),
}

impl View for GetterSetter {
    type V = GetterSetterView;

    open spec fn view(&self) -> GetterSetterView {
        match self {
            GetterSetter::Omitted => GetterSetterView::Omitted,
            GetterSetter::Generated => GetterSetterView::Generated,
            GetterSetter::Custom(ident) => GetterSetterView::Custom(ident@),
        }
    }
}

/// An editor hint: the variant of the host's hint enumeration, and the expression that
/// yields its description.
#[derive(Debug, PartialEq, Eq)]
pub struct ExportHint {
    pub hint_type: String,
    pub description: Tokens,
}

/// The view of an [`ExportHint`].
pub struct ExportHintView {
    pub hint_type: Seq<char>,
    pub description: Seq<TokenView>,
}

impl View for ExportHint {
    type V = ExportHintView;

    open spec fn view(&self) -> ExportHintView {
        ExportHintView { hint_type: self.hint_type@, description: self.description@ }
    }
}

impl Clone for ExportHint {
    fn clone(&self) -> (copy: ExportHint)
        ensures
            copy@ == self@,
    {
        ExportHint { hint_type: self.hint_type.clone(), description: self.description.clone() }
    }
}

/// The view of an optional hint.
pub open spec fn hint_view(hint: Option<ExportHint>) -> Option<ExportHintView> {
    match hint {
        Some(h) => Some(h@),
        None => None,
    }
}

/// The directives of one exported field.
#[derive(Debug, PartialEq, Eq)]
pub struct FieldExport {
    pub getter: GetterSetter,
    pub setter: GetterSetter,
    pub hint: Option<ExportHint>,
}

/// The view of a [`FieldExport`].
pub struct FieldExportView {
    pub getter: GetterSetterView,
    pub setter: GetterSetterView,
    pub hint: Option<ExportHintView>,
}

impl View for FieldExport {
    type V = FieldExportView;

    open spec fn view(&self) -> FieldExportView {
        FieldExportView {
            getter: self.getter@,
            setter: self.setter@,
            hint: hint_view(self.hint),
        }
    }
}

/// One declared field of a class: its name, its type, and its directives if it is exported.
#[derive(Debug, PartialEq, Eq)]
pub struct Field {
    pub name: String,
    pub ty: Tokens,
    pub export: Option<FieldExport>,
}

/// The view of a [`Field`].
pub struct FieldView {
    pub name: Seq<char>,
    pub ty: Seq<TokenView>,
    pub export: Option<FieldExportView>,
}

impl View for Field {
    type V = FieldView;

    open spec fn view(&self) -> FieldView {
        FieldView {
            name: self.name@,
            ty: self.ty@,
            export: match self.export {
                Some(e) => Some(e@),
                None => None,
            },
        }
    }
}

/// The fields of a class, in declaration order.
#[derive(Debug, PartialEq, Eq)]
pub struct Fields {
    pub all_fields: Vec<Field>,
}

impl View for Fields {
    type V = Seq<FieldView>;

    open spec fn view(&self) -> Seq<FieldView> {
        Seq::new(self.all_fields@.len(), |i: int| self.all_fields@[i]@)
    }
}

/// The key that asks for a getter: `get`.
pub open spec fn key_get() -> Seq<char> {
    seq!['g', 'e', 't']
}

/// The key that asks for a setter: `set`.
pub open spec fn key_set() -> Seq<char> {
    seq!['s', 'e', 't']
}

/// The key that names the editor hint: `hint`.
pub open spec fn key_hint() -> Seq<char> {
    seq!['h', 'i', 'n', 't']
}

/// The key that holds the hint's description: `hint_desc`.
pub open spec fn key_hint_desc() -> Seq<char> {
    seq!['h', 'i', 'n', 't', '_', 'd', 'e', 's', 'c']
}

/// What a directive says under `key` about one direction of access: a missing key omits
/// the accessor, a key alone asks for a generated one, a key with one identifier names
/// the user's own. Any other value is refused.
pub open spec fn spec_parse(
    map: Map<Seq<char>, Option<Seq<TokenView>>>,
    key: Seq<char>,
) -> Result<GetterSetterView, ParseErrorView> {
    match spec_handle_any(map, key) {
        None => Ok(GetterSetterView::Omitted),
        Some(None) => Ok(GetterSetterView::Generated),
        Some(Some(value)) => match spec_ident(value) {
            Some(ident) => Ok(GetterSetterView::Custom(ident)),
            None => Err(ParseErrorView { key, kind: ParseErrorKind::ExpectedIdentifier }),
        },
    }
}

/// The hint of a directive: none without `hint`; with it, `hint_desc` has to follow.
pub open spec fn spec_hint(map: Map<Seq<char>, Option<Seq<TokenView>>>) -> Result<
    Option<ExportHintView>,
    ParseErrorView,
> {
    match spec_handle_ident(map, key_hint()) {
        Err(e) => Err(e),
        Ok(None) => Ok(None),
        Ok(Some(hint_type)) => match spec_handle_expr_required(map, key_hint_desc()) {
            Err(e) => Err(e),
            Ok(description) => Ok(Some(ExportHintView { hint_type, description })),
        },
    }
}

/// The accessors of a directive once the default is applied: a directive that asks for
/// neither accessor gets both, generated.
pub open spec fn with_default_access(
    getter: GetterSetterView,
    setter: GetterSetterView,
) -> (GetterSetterView, GetterSetterView) {
    if getter is Omitted && setter is Omitted {
        (GetterSetterView::Generated, GetterSetterView::Generated)
    } else {
        (getter, setter)
    }
}

/// What a directive exports. The first fault among `get`, `set` and the hint is the
/// error.
pub open spec fn spec_new_from_kv(map: Map<Seq<char>, Option<Seq<TokenView>>>) -> Result<
    FieldExportView,
    ParseErrorView,
> {
    match spec_parse(map, key_get()) {
        Err(e) => Err(e),
        Ok(getter) => match spec_parse(map, key_set()) {
            Err(e) => Err(e),
            Ok(setter) => match spec_hint(map) {
                Err(e) => Err(e),
                Ok(hint) => Ok(
                    FieldExportView {
                        getter: with_default_access(getter, setter).0,
                        setter: with_default_access(getter, setter).1,
                        hint,
                    },
                ),
            },
        },
    }
}

/// The arguments that reading a directive leaves behind: each key is taken out when its
/// turn comes, and reading stops at the first fault. `hint_desc` is read only after a
/// `hint`.
pub open spec fn spec_remaining(map: Map<Seq<char>, Option<Seq<TokenView>>>) -> Map<
    Seq<char>,
    Option<Seq<TokenView>>,
> {
    if spec_parse(map, key_get()) is Err {
        map.remove(key_get())
    } else if spec_parse(map, key_set()) is Err {
        map.remove(key_get()).remove(key_set())
    } else if spec_handle_ident(map, key_hint()) matches Ok(Some(_)) {
        map.remove(key_get()).remove(key_set()).remove(key_hint()).remove(key_hint_desc())
    } else {
        map.remove(key_get()).remove(key_set()).remove(key_hint())
    }
}

impl GetterSetter {
    /// Reads one direction of access from a directive and takes its key out.
    pub fn parse(parser: &mut KvParser, key: &str) -> (parsed: ParseResult<GetterSetter>)
        requires
            old(parser).wf(),
        ensures
            final(parser).wf(),
            final(parser)@ == old(parser)@.remove(key@),
            match parsed {
                Ok(directive) => spec_parse(old(parser)@, key@) == Ok::<
                    GetterSetterView,
                    ParseErrorView,
                >(directive@),
                Err(e) => spec_parse(old(parser)@, key@) == Err::<
                    GetterSetterView,
                    ParseErrorView,
                >(e@),
            },
    {
        match parser.handle_any(key) {
            // No `get` argument
            None => Ok(GetterSetter::Omitted),
            Some(value) => match value {
                // `get` without value
                None => Ok(GetterSetter::Generated),
                // `get = ident`
                Some(value) => match value.ident() {
                    Some(ident) => Ok(GetterSetter::Custom(ident)),
                    None => Err(
                        ParseError {
                            key: String::from_str(key),
                            kind: ParseErrorKind::ExpectedIdentifier,
                        },
                    ),
                },
            },
        }
    }
}

impl FieldExport {
    /// Reads the export directive of one field: `get`, `set`, then `hint` with its
    /// `hint_desc`. A directive that names neither accessor exports the field for
    /// reading and writing.
    pub fn new_from_kv(parser: &mut KvParser) -> (export: ParseResult<FieldExport>)
        requires
            old(parser).wf(),
        ensures
            final(parser).wf(),
            final(parser)@ == spec_remaining(old(parser)@),
            match export {
                Ok(e) => spec_new_from_kv(old(parser)@) == Ok::<FieldExportView, ParseErrorView>(
                    e@,
                ),
                Err(e) => spec_new_from_kv(old(parser)@) == Err::<
                    FieldExportView,
                    ParseErrorView,
                >(e@),
            },
    {
        proof {
            reveal_strlit("get");
            reveal_strlit("set");
            reveal_strlit("hint");
            reveal_strlit("hint_desc");
            assert("get"@ =~= key_get());
            assert("set"@ =~= key_set());
            assert("hint"@ =~= key_hint());
            assert("hint_desc"@ =~= key_hint_desc());
            lemma_keys_differ();
        }
        let mut getter = match GetterSetter::parse(parser, "get") {
            Ok(directive) => directive,
            Err(e) => {
                return Err(e);
            },
        };
        let mut setter = match GetterSetter::parse(parser, "set") {
            Ok(directive) => directive,
            Err(e) => {
                return Err(e);
            },
        };
        let neither = matches!(getter, GetterSetter::Omitted) && matches!(
            setter,
            GetterSetter::Omitted
        );
        if neither {
            getter = GetterSetter::Generated;
            setter = GetterSetter::Generated;
        }
        let hint = match parser.handle_ident("hint") {
            Err(e) => {
                return Err(e);
            },
            Ok(None) => None,
            Ok(Some(hint_type)) => match parser.handle_expr_required("hint_desc") {
                Err(e) => {
                    return Err(e);
                },
                Ok(description) => Some(ExportHint { hint_type, description }),
            },
        };

        Ok(FieldExport { getter, setter, hint })
    }
}

/// The four keys of an export directive are four different keys.
pub proof fn lemma_keys_differ()
    ensures
        key_get() != key_set(),
        key_get() != key_hint(),
        key_get() != key_hint_desc(),
        key_set() != key_hint(),
        key_set() != key_hint_desc(),
        key_hint() != key_hint_desc(),
{
    assert(key_get()[0] != key_set()[0]);
    assert(key_get().len() != key_hint().len());
    assert(key_get().len() != key_hint_desc().len());
    assert(key_set().len() != key_hint().len());
    assert(key_set().len() != key_hint_desc().len());
    assert(key_hint().len() != key_hint_desc().len());
}

/// The direction of an accessor.
#[derive(Clone, Copy, Debug, PartialEq, Eq, Structural)]
pub enum AccessorKind {
    /// Reads the field: `fn name(&self) -> field_type`.
    Getter,
    /// Writes the field: `fn name(&mut self, field_name: field_type)`.
    Setter,
}

/// A synthesized accessor. Kind, name, field and type fix both its signature and its body.
#[derive(Debug, PartialEq, Eq)]
pub struct Accessor {
    pub kind: AccessorKind,
    pub name: String,
    pub field_name: String,
    pub field_type: Tokens,
}

/// The view of an [`Accessor`].
pub struct AccessorView {
    pub kind: AccessorKind,
    pub name: Seq<char>,
    pub field_name: Seq<char>,
    pub field_type: Seq<TokenView>,
}

impl View for Accessor {
    type V = AccessorView;

    open spec fn view(&self) -> AccessorView {
        AccessorView {
            kind: self.kind,
            name: self.name@,
            field_name: self.field_name@,
            field_type: self.field_type@,
        }
    }
}

/// The registration of one property with the host: the record's ingredients and the
/// names of the accessors. An empty accessor name tells the host that there is no
/// accessor in that direction.
#[derive(Debug, PartialEq, Eq)]
pub struct PropertyExport {
    pub field_name: String,
    pub field_type: Tokens,
    pub hint: Option<ExportHint>,
    pub usage: u32,
    pub getter_name: String,
    pub setter_name: String,
}

/// The view of a [`PropertyExport`].
pub struct PropertyExportView {
    pub field_name: Seq<char>,
    pub field_type: Seq<TokenView>,
    pub hint: Option<ExportHintView>,
    pub usage: u32,
    pub getter_name: Seq<char>,
    pub setter_name: Seq<char>,
}

impl View for PropertyExport {
    type V = PropertyExportView;

    open spec fn view(&self) -> PropertyExportView {
        PropertyExportView {
            field_name: self.field_name@,
            field_type: self.field_type@,
            hint: hint_view(self.hint),
            usage: self.usage,
            getter_name: self.getter_name@,
            setter_name: self.setter_name@,
        }
    }
}

/// One step of a class's export registration.
#[derive(Debug, PartialEq, Eq)]
pub enum ExportToken {
    /// Register the synthesized accessor as a method of the class.
    RegisterMethod(Accessor),
    /// Refuse to build unless the class has a function of this name.
    ExistenceCheck(String),
    /// Hand the property record and the accessor names to the host.
    RegisterProperty(PropertyExport),
}

/// The view of an [`ExportToken`].
pub enum ExportTokenView {
    RegisterMethod(AccessorView),
    ExistenceCheck(Seq<char>),
    RegisterProperty(PropertyExportView),
}

impl View for ExportToken {
    type V = ExportTokenView;

    open spec fn view(&self) -> ExportTokenView {
        match self {
            ExportToken::RegisterMethod(accessor) => ExportTokenView::RegisterMethod(accessor@),
            ExportToken::ExistenceCheck(ident) => ExportTokenView::ExistenceCheck(ident@),
            ExportToken::RegisterProperty(property) => ExportTokenView::RegisterProperty(
                property@,
            ),
        }
    }
}

/// Everything that exporting a class's fields adds to the class.
#[derive(Debug, PartialEq, Eq)]
pub struct ExportsImpl {
    /// The class the items below belong to.
    pub class_name: String,
    /// Whether the build must fail unless the class implements the host's API block.
    pub enforce_godot_api_impl: bool,
    /// The accessors to synthesize on the class.
    pub getter_setter_impls: Vec<Accessor>,
    /// The steps of the class's export registration, in the order they run.
    pub export_tokens: Vec<ExportToken>,
}

/// The view of an [`ExportsImpl`].
pub struct ExportsImplView {
    pub class_name: Seq<char>,
    pub enforce_godot_api_impl: bool,
    pub getter_setter_impls: Seq<AccessorView>,
    pub export_tokens: Seq<ExportTokenView>,
}

/// The views of a sequence of accessors.
pub open spec fn accessors_view(accessors: Seq<Accessor>) -> Seq<AccessorView> {
    Seq::new(accessors.len(), |i: int| accessors[i]@)
}

/// The views of a sequence of registration steps.
pub open spec fn tokens_view(tokens: Seq<ExportToken>) -> Seq<ExportTokenView> {
    Seq::new(tokens.len(), |i: int| tokens[i]@)
}

impl View for ExportsImpl {
    type V = ExportsImplView;

    open spec fn view(&self) -> ExportsImplView {
        ExportsImplView {
            class_name: self.class_name@,
            enforce_godot_api_impl: self.enforce_godot_api_impl,
            getter_setter_impls: accessors_view(self.getter_setter_impls@),
            export_tokens: tokens_view(self.export_tokens@),
        }
    }
}

/// What a synthesized accessor's name starts with: `get_` or `set_`.
pub open spec fn accessor_prefix(kind: AccessorKind) -> Seq<char> {
    match kind {
        AccessorKind::Getter => seq!['g', 'e', 't', '_'],
        AccessorKind::Setter => seq!['s', 'e', 't', '_'],
    }
}

/// The accessor name that the host is given for one direction of one field.
pub open spec fn accessor_name(
    kind: AccessorKind,
    field_name: Seq<char>,
    directive: GetterSetterView,
) -> Seq<char> {
    match directive {
        GetterSetterView::Omitted => Seq::empty(),
        GetterSetterView::Generated => accessor_prefix(kind) + field_name,
        GetterSetterView::Custom(ident) => ident,
    }
}

/// The accessor that is synthesized for a field in one direction.
pub open spec fn generated_accessor(kind: AccessorKind, field: FieldView) -> AccessorView {
    AccessorView {
        kind,
        name: accessor_prefix(kind) + field.name,
        field_name: field.name,
        field_type: field.ty,
    }
}

/// The accessors synthesized for one direction of one field: one if the directive asks
/// for a generated accessor, none otherwise.
pub open spec fn accessor_impls(
    kind: AccessorKind,
    field: FieldView,
    directive: GetterSetterView,
) -> Seq<AccessorView> {
    match directive {
        GetterSetterView::Generated => seq![generated_accessor(kind, field)],
        _ => Seq::empty(),
    }
}

/// The registration steps for one direction of one field.
pub open spec fn accessor_tokens(
    kind: AccessorKind,
    field: FieldView,
    directive: GetterSetterView,
) -> Seq<ExportTokenView> {
    match directive {
        GetterSetterView::Omitted => Seq::empty(),
        GetterSetterView::Generated => seq![
            ExportTokenView::RegisterMethod(generated_accessor(kind, field)),
        ],
        GetterSetterView::Custom(ident) => seq![ExportTokenView::ExistenceCheck(ident)],
    }
}

/// The property registration of an exported field.
pub open spec fn property_export(field: FieldView, export: FieldExportView) -> PropertyExportView {
    PropertyExportView {
        field_name: field.name,
        field_type: field.ty,
        hint: export.hint,
        usage: PROPERTY_USAGE_DEFAULT,
        getter_name: accessor_name(AccessorKind::Getter, field.name, export.getter),
        setter_name: accessor_name(AccessorKind::Setter, field.name, export.setter),
    }
}

/// The accessors synthesized for one field: getter before setter.
pub open spec fn field_impls(field: FieldView) -> Seq<AccessorView> {
    match field.export {
        None => Seq::empty(),
        Some(export) => accessor_impls(AccessorKind::Getter, field, export.getter)
            + accessor_impls(AccessorKind::Setter, field, export.setter),
    }
}

/// The registration steps of one field: what its getter needs, what its setter needs,
/// then the property itself. A field that is not exported has none.
pub open spec fn field_tokens(field: FieldView) -> Seq<ExportTokenView> {
    match field.export {
        None => Seq::empty(),
        Some(export) => accessor_tokens(AccessorKind::Getter, field, export.getter)
            + accessor_tokens(AccessorKind::Setter, field, export.setter)
            + seq![ExportTokenView::RegisterProperty(property_export(field, export))],
    }
}

/// The accessors synthesized for a class, field by field.
pub open spec fn all_impls(fields: Seq<FieldView>) -> Seq<AccessorView>
    decreases fields.len(),
{
    if fields.len() == 0 {
        Seq::empty()
    } else {
        all_impls(fields.drop_last()) + field_impls(fields.last())
    }
}

/// The registration steps of a class, field by field.
pub open spec fn all_tokens(fields: Seq<FieldView>) -> Seq<ExportTokenView>
    decreases fields.len(),
{
    if fields.len() == 0 {
        Seq::empty()
    } else {
        all_tokens(fields.drop_last()) + field_tokens(fields.last())
    }
}

/// What exporting the fields of a class adds to it. The API block is enforced exactly
/// when there is something to register.
pub open spec fn exports_impl(class_name: Seq<char>, fields: Seq<FieldView>) -> ExportsImplView {
    ExportsImplView {
        class_name,
        enforce_godot_api_impl: all_tokens(fields).len() > 0,
        getter_setter_impls: all_impls(fields),
        export_tokens: all_tokens(fields),
    }
}

/// Handles one direction of one field: appends what the directive asks for and returns
/// the accessor name for the host.
fn export_accessor(
    kind: AccessorKind,
    field: &Field,
    directive: &GetterSetter,
    getter_setter_impls: &mut Vec<Accessor>,
    export_tokens: &mut Vec<ExportToken>,
) -> (name: String)
    ensures
        name@ == accessor_name(kind, field@.name, directive@),
        accessors_view(final(getter_setter_impls)@) == accessors_view(old(getter_setter_impls)@)
            + accessor_impls(kind, field@, directive@),
        tokens_view(final(export_tokens)@) == tokens_view(old(export_tokens)@) + accessor_tokens(
            kind,
            field@,
            directive@,
        ),
{
    match directive {
        GetterSetter::Omitted => String::new(),
        GetterSetter::Generated => {
            let prefix = match kind {
                AccessorKind::Getter => "get_",
                AccessorKind::Setter => "set_",
            };
            proof {
                reveal_strlit("get_");
                reveal_strlit("set_");
                assert(prefix@ =~= accessor_prefix(kind));
            }
            let name = String::from_str(prefix).concat(field.name.as_str());
            let implemented = Accessor {
                kind,
                name: name.clone(),
                field_name: field.name.clone(),
                field_type: field.ty.clone(),
            };
            let registered = Accessor {
                kind,
                name: name.clone(),
                field_name: field.name.clone(),
                field_type: field.ty.clone(),
            };
            getter_setter_impls.push(implemented);
            export_tokens.push(ExportToken::RegisterMethod(registered));
            name
        },
        GetterSetter::Custom(ident) => {
            export_tokens.push(ExportToken::ExistenceCheck(ident.clone()));
            ident.clone()
        },
    }
}

/// Turns the export directives of a class into the accessors to synthesize and the
/// registration steps to run.
///
/// Fields are taken in declaration order; a field without directives adds nothing.
/// For an exported field the getter comes first, then the setter, then the property.
pub fn make_exports_impl(class_name: &str, fields: &Fields) -> (exports: ExportsImpl)
    ensures
        exports@ == exports_impl(class_name@, fields@),
{
    let mut getter_setter_impls: Vec<Accessor> = Vec::new();
    let mut export_tokens: Vec<ExportToken> = Vec::new();

    let mut i: usize = 0;
    while i < fields.all_fields.len()
        invariant
            i <= fields.all_fields.len(),
            accessors_view(getter_setter_impls@) == all_impls(fields@.take(i as int)),
            tokens_view(export_tokens@) == all_tokens(fields@.take(i as int)),
        decreases fields.all_fields.len() - i,
    {
        let field = &fields.all_fields[i];
        assert(fields@.take(i + 1).drop_last() =~= fields@.take(i as int));
        match &field.export {
            None => {},
            Some(export) => {
                let getter_name = export_accessor(
                    AccessorKind::Getter,
                    field,
                    &export.getter,
                    &mut getter_setter_impls,
                    &mut export_tokens,
                );
                let setter_name = export_accessor(
                    AccessorKind::Setter,
                    field,
                    &export.setter,
                    &mut getter_setter_impls,
                    &mut export_tokens,
                );

                let hint = match &export.hint {
                    Some(h) => Some(h.clone()),
                    None => None,
                };
                let property = PropertyExport {
                    field_name: field.name.clone(),
                    field_type: field.ty.clone(),
                    hint,
                    usage: PROPERTY_USAGE_DEFAULT,
                    getter_name,
                    setter_name,
                };
                let ghost tokens_mid = tokens_view(export_tokens@);
                export_tokens.push(ExportToken::RegisterProperty(property));
                assert(tokens_view(export_tokens@) =~= tokens_mid + seq![
                    ExportTokenView::RegisterProperty(property_export(field@, export@)),
                ]);
            },
        }
        i += 1;
    }
    assert(fields@.take(i as int) =~= fields@);

    let enforce_godot_api_impl = export_tokens.len() > 0;
    ExportsImpl {
        class_name: String::from_str(class_name),
        enforce_godot_api_impl,
        getter_setter_impls,
        export_tokens,
    }
}

/// No directive exports a field that the host can neither read nor write: whatever the
/// arguments, an accepted directive has a getter or a setter.
pub proof fn lemma_directive_grants_access(map: Map<Seq<char>, Option<Seq<TokenView>>>)
    ensures
        spec_new_from_kv(map) matches Ok(export) ==> !(export.getter is Omitted
            && export.setter is Omitted),
{
}

/// A field whose directive names neither `get` nor `set` is exported for reading and
/// writing: both accessors are synthesized, and the host is given `get_<field>` and
/// `set_<field>`, neither of them empty. A directive can still be refused for its hint.
pub proof fn lemma_no_accessor_directive_exports_both(
    map: Map<Seq<char>, Option<Seq<TokenView>>>,
    name: Seq<char>,
    ty: Seq<TokenView>,
)
    requires
        !map.dom().contains(key_get()),
        !map.dom().contains(key_set()),
    ensures
        match spec_new_from_kv(map) {
            Err(_) => spec_hint(map) is Err,
            Ok(export) => {
                let field = FieldView { name, ty, export: Some(export) };
                let property = property_export(field, export);
                &&& export.getter == GetterSetterView::Generated
                &&& export.setter == GetterSetterView::Generated
                &&& property.getter_name == seq!['g', 'e', 't', '_'] + name
                &&& property.setter_name == seq!['s', 'e', 't', '_'] + name
                &&& property.getter_name.len() > 0
                &&& property.setter_name.len() > 0
                &&& field_impls(field) == seq![
                    generated_accessor(AccessorKind::Getter, field),
                    generated_accessor(AccessorKind::Setter, field),
                ]
                &&& field_tokens(field) == seq![
                    ExportTokenView::RegisterMethod(generated_accessor(AccessorKind::Getter, field)),
                    ExportTokenView::RegisterMethod(generated_accessor(AccessorKind::Setter, field)),
                    ExportTokenView::RegisterProperty(property),
                ]
            },
        },
{
    if let Ok(export) = spec_new_from_kv(map) {
        let field = FieldView { name, ty, export: Some(export) };
        assert(field_impls(field) =~= seq![
            generated_accessor(AccessorKind::Getter, field),
            generated_accessor(AccessorKind::Setter, field),
        ]);
        assert(field_tokens(field) =~= seq![
            ExportTokenView::RegisterMethod(generated_accessor(AccessorKind::Getter, field)),
            ExportTokenView::RegisterMethod(generated_accessor(AccessorKind::Setter, field)),
            ExportTokenView::RegisterProperty(property_export(field, export)),
        ]);
    }
}

/// A field whose directive names `get` and not `set` cannot be written by the host: the
/// setter name handed to the host is empty, no setter is synthesized and none is
/// registered as a method.
pub proof fn lemma_get_only_has_no_setter(
    map: Map<Seq<char>, Option<Seq<TokenView>>>,
    name: Seq<char>,
    ty: Seq<TokenView>,
)
    requires
        map.dom().contains(key_get()),
        !map.dom().contains(key_set()),
    ensures
        match spec_new_from_kv(map) {
            Err(_) => spec_parse(map, key_get()) is Err || spec_hint(map) is Err,
            Ok(export) => {
                let field = FieldView { name, ty, export: Some(export) };
                &&& export.setter == GetterSetterView::Omitted
                &&& export.getter != GetterSetterView::Omitted
                &&& property_export(field, export).setter_name == Seq::<char>::empty()
                &&& forall|i: int|
                    0 <= i < field_impls(field).len() ==> (#[trigger] field_impls(field)[i]).kind
                        != AccessorKind::Setter
                &&& forall|i: int|
                    0 <= i < field_tokens(field).len() ==> !(#[trigger] field_tokens(field)[i]
                        matches ExportTokenView::RegisterMethod(accessor) && accessor.kind
                        == AccessorKind::Setter)
            },
        },
{
}

/// A field whose getter (or setter) is the user's own function gets no synthesized
/// accessor in that direction. Its registration starts (for a setter: goes on) with the
/// check that the function exists, and hands the function's name to the host.
pub proof fn lemma_custom_accessor_is_checked(
    kind: AccessorKind,
    field: FieldView,
    ident: Seq<char>,
)
    requires
        field.export matches Some(export) && match kind {
            AccessorKind::Getter => export.getter == GetterSetterView::Custom(ident),
            AccessorKind::Setter => export.setter == GetterSetterView::Custom(ident),
        },
    ensures
        accessor_impls(kind, field, GetterSetterView::Custom(ident)) == Seq::<
            AccessorView,
        >::empty(),
        accessor_tokens(kind, field, GetterSetterView::Custom(ident)) == seq![
            ExportTokenView::ExistenceCheck(ident),
        ],
        field_tokens(field).contains(ExportTokenView::ExistenceCheck(ident)),
        field_tokens(field).last() matches ExportTokenView::RegisterProperty(property) && match kind {
            AccessorKind::Getter => property.getter_name == ident,
            AccessorKind::Setter => property.setter_name == ident,
        },
        forall|i: int|
            0 <= i < field_impls(field).len() ==> (#[trigger] field_impls(field)[i]).kind != kind,
{
    let export = field.export->0;
    let getter_tokens = accessor_tokens(AccessorKind::Getter, field, export.getter);
    let setter_tokens = accessor_tokens(AccessorKind::Setter, field, export.setter);
    let tokens = field_tokens(field);
    match kind {
        AccessorKind::Getter => {
            assert(tokens[0] == ExportTokenView::ExistenceCheck(ident));
        },
        AccessorKind::Setter => {
            assert(tokens[getter_tokens.len() as int] == ExportTokenView::ExistenceCheck(ident));
        },
    }
}

/// The names under which a class's properties are registered, in the order of the
/// registration steps.
pub open spec fn registered_properties(tokens: Seq<ExportTokenView>) -> Seq<Seq<char>>
    decreases tokens.len(),
{
    if tokens.len() == 0 {
        Seq::empty()
    } else {
        match tokens.last() {
            ExportTokenView::RegisterProperty(property) => registered_properties(
                tokens.drop_last(),
            ).push(property.field_name),
            _ => registered_properties(tokens.drop_last()),
        }
    }
}

/// The names of the exported fields of a class, in declaration order.
pub open spec fn exported_fields(fields: Seq<FieldView>) -> Seq<Seq<char>>
    decreases fields.len(),
{
    if fields.len() == 0 {
        Seq::empty()
    } else if fields.last().export is Some {
        exported_fields(fields.drop_last()).push(fields.last().name)
    } else {
        exported_fields(fields.drop_last())
    }
}

proof fn lemma_registered_properties_concat(
    head: Seq<ExportTokenView>,
    tail: Seq<ExportTokenView>,
)
    ensures
        registered_properties(head + tail) == registered_properties(head) + registered_properties(
            tail,
        ),
    decreases tail.len(),
{
    if tail.len() == 0 {
        assert(head + tail =~= head);
        assert(registered_properties(head) + registered_properties(tail)
            =~= registered_properties(head));
    } else {
        assert((head + tail).drop_last() =~= head + tail.drop_last());
        assert((head + tail).last() == tail.last());
        lemma_registered_properties_concat(head, tail.drop_last());
        match tail.last() {
            ExportTokenView::RegisterProperty(property) => {
                assert(registered_properties(head + tail) =~= registered_properties(head)
                    + registered_properties(tail));
            },
            _ => {},
        }
    }
}

proof fn lemma_accessor_tokens_register_nothing(
    kind: AccessorKind,
    field: FieldView,
    directive: GetterSetterView,
)
    ensures
        registered_properties(accessor_tokens(kind, field, directive)) == Seq::<
            Seq<char>,
        >::empty(),
{
    let tokens = accessor_tokens(kind, field, directive);
    if tokens.len() > 0 {
        assert(tokens.drop_last() =~= Seq::empty());
        assert(registered_properties(tokens.drop_last()) == Seq::<Seq<char>>::empty());
    }
}

/// Registration follows the declaration: every exported field is registered as a
/// property once, under its own name, in the order of the fields; nothing else is.
pub proof fn lemma_properties_follow_fields(fields: Seq<FieldView>)
    ensures
        registered_properties(all_tokens(fields)) == exported_fields(fields),
    decreases fields.len(),
{
    if fields.len() > 0 {
        let field = fields.last();
        lemma_properties_follow_fields(fields.drop_last());
        lemma_registered_properties_concat(all_tokens(fields.drop_last()), field_tokens(field));
        match field.export {
            None => {
                assert(registered_properties(field_tokens(field)) == Seq::<Seq<char>>::empty());
                assert(exported_fields(fields) =~= exported_fields(fields.drop_last())
                    + Seq::empty());
            },
            Some(export) => {
                let getter_tokens = accessor_tokens(AccessorKind::Getter, field, export.getter);
                let setter_tokens = accessor_tokens(AccessorKind::Setter, field, export.setter);
                let accessors = getter_tokens + setter_tokens;
                let last = seq![ExportTokenView::RegisterProperty(property_export(field, export))];
                lemma_accessor_tokens_register_nothing(
                    AccessorKind::Getter,
                    field,
                    export.getter,
                );
                lemma_accessor_tokens_register_nothing(
                    AccessorKind::Setter,
                    field,
                    export.setter,
                );
                lemma_registered_properties_concat(getter_tokens, setter_tokens);
                lemma_registered_properties_concat(accessors, last);
                assert(last.drop_last() =~= Seq::empty());
                assert(registered_properties(last.drop_last()) == Seq::<Seq<char>>::empty());
                assert(registered_properties(last) =~= seq![field.name]);
                assert(registered_properties(field_tokens(field)) =~= seq![field.name]);
                assert(exported_fields(fields) =~= exported_fields(fields.drop_last()) + seq![
                    field.name,
                ]);
            },
        }
    }
}

/// The host's API block is enforced exactly for the classes that export a field.
pub proof fn lemma_api_enforced_iff_exported(class_name: Seq<char>, fields: Seq<FieldView>)
    ensures
        exports_impl(class_name, fields).enforce_godot_api_impl <==> exists|i: int|
            0 <= i < fields.len() && (#[trigger] fields[i]).export is Some,
    decreases fields.len(),
{
    if fields.len() > 0 {
        let field = fields.last();
        let init = fields.drop_last();
        lemma_api_enforced_iff_exported(class_name, init);
        if field.export is Some {
            assert(fields[fields.len() - 1].export is Some);
            assert(field_tokens(field).len() > 0);
        } else {
            assert(all_tokens(fields) =~= all_tokens(init));
            if exists|i: int| 0 <= i < fields.len() && (#[trigger] fields[i]).export is Some {
                let i = choose|i: int|
                    0 <= i < fields.len() && (#[trigger] fields[i]).export is Some;
                assert(init[i].export is Some);
            }
            if exists|i: int| 0 <= i < init.len() && (#[trigger] init[i]).export is Some {
                let i = choose|i: int| 0 <= i < init.len() && (#[trigger] init[i]).export is Some;
                assert(fields[i].export is Some);
            }
        }
        if exists|i: int| 0 <= i < init.len() && (#[trigger] init[i]).export is Some {
            let i = choose|i: int| 0 <= i < init.len() && (#[trigger] init[i]).export is Some;
            assert(fields[i].export is Some);
        }
    }
}

} // verus!
