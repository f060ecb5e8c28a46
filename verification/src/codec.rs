use vstd::prelude::*;

use rbx_dom_weak::types::{Ref, Variant};
use rbx_dom_weak::{InstanceBuilder, WeakDom};
use rbx_xml::{DecodeError, EncodeError};

verus! {

// Declarations of the codec crates' types. They are opaque here: the
// library carries their values through and never reads inside them.

/// rbx_types::Variant: one opaque property value of an instance.
#[verifier::external_type_specification]
#[verifier::external_body]
pub struct ExVariant(Variant);

/// rbx_types::Ref: the codec's own instance identifier, generated afresh
/// for every decoded document.
#[verifier::external_type_specification]
#[verifier::external_body]
pub struct ExRef(Ref);

/// rbx_dom_weak::WeakDom: the codec's document-object tree.
#[verifier::external_type_specification]
#[verifier::external_body]
pub struct ExWeakDom(WeakDom);

/// rbx_dom_weak::InstanceBuilder: a subtree under construction, fed to the
/// codec for serialization.
#[verifier::external_type_specification]
#[verifier::external_body]
pub struct ExInstanceBuilder(InstanceBuilder);

/// rbx_xml::DecodeError: the codec's parse failure.
#[verifier::external_type_specification]
#[verifier::external_body]
pub struct ExDecodeError(DecodeError);

/// rbx_xml::EncodeError: the codec's serialize failure.
#[verifier::external_type_specification]
#[verifier::external_body]
pub struct ExEncodeError(EncodeError);

// Trusted wrappers around the calls the pipelines make. Referents inside a
// decoded document are freshly generated on every call, so nothing relates
// two decodes of the same bytes; the verified walks in this crate therefore
// state their guarantees over the trees they build, for every answer these
// calls can give. What *is* a function of the arguments alone is named:
// whether the parser accepts the bytes, and the structural content of a
// builder under construction.

/// Whether the codec's parser accepts these bytes. The parser reads the
/// bytes sequentially against a fixed reflection database, so acceptance
/// depends on the bytes alone; only the referents of the decoded document
/// are fresh on each call.
pub uninterp spec fn xml_parses(bytes: Seq<u8>) -> bool;

/// The name a builder under construction carries.
pub uninterp spec fn builder_name(b: InstanceBuilder) -> Seq<char>;

/// The class name a builder under construction carries.
pub uninterp spec fn builder_class(b: InstanceBuilder) -> Seq<char>;

/// The ordered children a builder under construction holds. The property
/// payload is deliberately left unmodeled: it is opaque to this library.
pub uninterp spec fn builder_children(b: InstanceBuilder) -> Seq<InstanceBuilder>;

/// The builder a document was built from.
pub uninterp spec fn dom_source(d: WeakDom) -> InstanceBuilder;

/// Relies on rbx_xml::from_reader_default: parses XML place/model bytes
/// into a document whose root is the file's synthetic container, and
/// succeeds exactly when the parser accepts the bytes.
#[verifier::external_body]
pub(crate) fn xml_decode(bytes: &[u8]) -> (r: Result<WeakDom, DecodeError>)
    ensures
        r is Ok <==> xml_parses(bytes@),
{
    rbx_xml::from_reader_default(bytes)
}

/// Relies on the Display impl of rbx_xml::DecodeError for a readable
/// description of a parse failure.
#[verifier::external_body]
pub(crate) fn decode_error_text(e: &DecodeError) -> (r: String) {
    format!("{}", e)
}

/// Relies on the Display impl of rbx_xml::EncodeError for a readable
/// description of a serialize failure.
#[verifier::external_body]
pub(crate) fn encode_error_text(e: &EncodeError) -> (r: String) {
    format!("{}", e)
}

/// Relies on rbx_dom_weak::WeakDom::root, and on every WeakDom keeping its
/// root present (the constructor inserts it; destroy and transfer refuse
/// it), so the lookup cannot fail. The root's name, class name, property
/// payload and ordered child referents are handed back as owned values.
#[verifier::external_body]
pub(crate) fn dom_fetch_root(dom: &WeakDom) -> (r: (
    String,
    String,
    Vec<(String, Variant)>,
    Vec<Ref>,
)) {
    let inst = dom.root();
    (
        inst.name.clone(),
        inst.class.clone(),
        inst.properties.iter().map(|(k, v)| (k.clone(), v.clone())).collect(),
        inst.children().to_vec(),
    )
}

/// Relies on rbx_dom_weak::WeakDom::get_by_ref: resolves a referent to its
/// instance, or `None` if the document does not contain it. The instance's
/// name, class name, property payload and ordered child referents are
/// handed back as owned values.
#[verifier::external_body]
pub(crate) fn dom_fetch(dom: &WeakDom, referent: Ref) -> (r: Option<
    (String, String, Vec<(String, Variant)>, Vec<Ref>),
>) {
    match dom.get_by_ref(referent) {
        None => None,
        Some(inst) => Some(
            (
                inst.name.clone(),
                inst.class.clone(),
                inst.properties.iter().map(|(k, v)| (k.clone(), v.clone())).collect(),
                inst.children().to_vec(),
            ),
        ),
    }
}

/// Relies on rbx_dom_weak::WeakDom::descendants: how many instances the
/// document reaches from its root. The decode walk uses it as a bound on
/// its work list.
#[verifier::external_body]
pub(crate) fn dom_node_count(dom: &WeakDom) -> (r: usize) {
    dom.descendants().count()
}

/// Relies on Clone of String and of rbx_types::Variant: a copy of a
/// property payload, handed out so a caller can hold it beyond a lock.
#[verifier::external_body]
pub(crate) fn props_clone(properties: &Vec<(String, Variant)>) -> (r: Vec<(String, Variant)>) {
    properties.iter().map(|(k, v)| (k.clone(), v.clone())).collect()
}

/// Relies on rbx_dom_weak::InstanceBuilder::new, with_name and
/// with_properties: a childless builder carrying the given name, class
/// name and property payload.
#[verifier::external_body]
pub(crate) fn builder_new(
    name: &String,
    class_name: &String,
    properties: &Vec<(String, Variant)>,
) -> (r: InstanceBuilder)
    ensures
        builder_name(r) == name@,
        builder_class(r) == class_name@,
        builder_children(r) == Seq::<InstanceBuilder>::empty(),
{
    InstanceBuilder::new(class_name.clone()).with_name(name.clone()).with_properties(
        properties.iter().map(|(k, v)| (k.clone(), v.clone())),
    )
}

/// Relies on rbx_dom_weak::InstanceBuilder::add_child: appends `child` to
/// the end of `builder`'s ordered children and touches nothing else.
#[verifier::external_body]
pub(crate) fn builder_add_child(builder: &mut InstanceBuilder, child: InstanceBuilder)
    ensures
        builder_name(*final(builder)) == builder_name(*old(builder)),
        builder_class(*final(builder)) == builder_class(*old(builder)),
        builder_children(*final(builder)) == builder_children(*old(builder)).push(child),
{
    builder.add_child(child);
}

/// Relies on rbx_dom_weak::WeakDom::new: a document whose root is the
/// instance described by `root`, its subtree inserted in order.
#[verifier::external_body]
pub(crate) fn dom_from_builder(root: InstanceBuilder) -> (r: WeakDom)
    ensures
        dom_source(r) == root,
{
    WeakDom::new(root)
}

/// Relies on rbx_xml::to_writer_default, with the root's children as the
/// serialization roots, and on WeakDom keeping its root present (its
/// constructor inserts it and its destroy operation refuses it), so the
/// root lookup and the serializer's referent lookups cannot fail.
#[verifier::external_body]
pub(crate) fn xml_encode_root_children(dom: &WeakDom) -> (r: Result<Vec<u8>, EncodeError>) {
    let mut out: Vec<u8> = Vec::new();
    match rbx_xml::to_writer_default(&mut out, dom, dom.root().children()) {
        Ok(()) => Ok(out),
        Err(e) => Err(e),
    }
}

} // verus!
