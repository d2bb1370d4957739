use vstd::prelude::*;

use crate::did::{did_text, HederaDid};
use crate::error::DIDError;

verus! {

/// A key listed in a DID document.
#[derive(Debug)]
pub struct VerificationMethod {
    pub id: String,
    pub method_type: String,
    pub controller: String,
    pub public_key_multibase: String,
}

/// A service endpoint listed in a DID document.
#[derive(Debug)]
pub struct Service {
    pub id: String,
    pub service_type: String,
    pub service_endpoint: String,
}

/// A DID document.
#[derive(Debug)]
pub struct DIDDocument {
    pub id: String,
    pub controller: String,
    pub verification_method: Vec<VerificationMethod>,
    pub service: Vec<Service>,
}

/// Metadata about a resolved document. Resolution always records whether the
/// DID is deactivated.
#[derive(Debug)]
pub struct DIDDocumentMetadata {
    pub deactivated: Option<bool>,
}

/// The result of resolving a DID.
#[derive(Debug)]
pub struct DIDResolution {
    pub did_document: DIDDocument,
    pub did_document_metadata: DIDDocumentMetadata,
}

/// One event read from a DID's topic, already decoded from its message.
#[derive(Debug)]
pub enum DidEvent {
    /// The owner (create) event: the controller and the root public key.
    Owner { controller: String, public_key_multibase: String },
    AddVerificationMethod(VerificationMethod),
    /// Removes the verification method with the given id.
    RemoveVerificationMethod(String),
    AddService(Service),
    /// Removes the service with the given id.
    RemoveService(String),
    Deactivate,
}

/// An event with the outcome of checking its signature against the DID's key.
#[derive(Debug)]
pub struct SignedEvent {
    pub event: DidEvent,
    pub signature_valid: bool,
}

/// Abstract verification method.
pub struct VmView {
    pub id: Seq<char>,
    pub method_type: Seq<char>,
    pub controller: Seq<char>,
    pub public_key_multibase: Seq<char>,
}

/// Abstract service.
pub struct ServiceView {
    pub id: Seq<char>,
    pub service_type: Seq<char>,
    pub service_endpoint: Seq<char>,
}

/// Abstract DID document.
pub struct DocView {
    pub id: Seq<char>,
    pub controller: Seq<char>,
    pub verification_method: Seq<VmView>,
    pub service: Seq<ServiceView>,
}

/// Abstract event.
pub enum EventView {
    Owner { controller: Seq<char>, public_key_multibase: Seq<char> },
    AddVerificationMethod(VmView),
    RemoveVerificationMethod(Seq<char>),
    AddService(ServiceView),
    RemoveService(Seq<char>),
    Deactivate,
}

/// Abstract signed event.
pub struct SignedEventView {
    pub event: EventView,
    pub signature_valid: bool,
}

impl View for VerificationMethod {
    type V = VmView;

    open spec fn view(&self) -> VmView {
        VmView {
            id: self.id@,
            method_type: self.method_type@,
            controller: self.controller@,
            public_key_multibase: self.public_key_multibase@,
        }
    }
}

impl View for Service {
    type V = ServiceView;

    open spec fn view(&self) -> ServiceView {
        ServiceView {
            id: self.id@,
            service_type: self.service_type@,
            service_endpoint: self.service_endpoint@,
        }
    }
}

/// The views of a vector of verification methods.
pub open spec fn vms_view(v: Seq<VerificationMethod>) -> Seq<VmView> {
    v.map_values(|m: VerificationMethod| m@)
}

/// The views of a vector of services.
pub open spec fn services_view(v: Seq<Service>) -> Seq<ServiceView> {
    v.map_values(|s: Service| s@)
}

impl View for DIDDocument {
    type V = DocView;

    open spec fn view(&self) -> DocView {
        DocView {
            id: self.id@,
            controller: self.controller@,
            verification_method: vms_view(self.verification_method@),
            service: services_view(self.service@),
        }
    }
}

impl View for DidEvent {
    type V = EventView;

    open spec fn view(&self) -> EventView {
        match self {
            DidEvent::Owner { controller, public_key_multibase } => EventView::Owner {
                controller: controller@,
                public_key_multibase: public_key_multibase@,
            },
            DidEvent::AddVerificationMethod(m) => EventView::AddVerificationMethod(m@),
            DidEvent::RemoveVerificationMethod(id) => EventView::RemoveVerificationMethod(id@),
            DidEvent::AddService(s) => EventView::AddService(s@),
            DidEvent::RemoveService(id) => EventView::RemoveService(id@),
            DidEvent::Deactivate => EventView::Deactivate,
        }
    }
}

impl View for SignedEvent {
    type V = SignedEventView;

    open spec fn view(&self) -> SignedEventView {
        SignedEventView { event: self.event@, signature_valid: self.signature_valid }
    }
}

/// The views of a vector of signed events.
pub open spec fn events_view(v: Seq<SignedEvent>) -> Seq<SignedEventView> {
    v.map_values(|e: SignedEvent| e@)
}

/// `s` without the elements that satisfy `p`, order kept.
pub open spec fn drop_matching<A>(s: Seq<A>, p: spec_fn(A) -> bool) -> Seq<A>
    decreases s.len(),
{
    if s.len() == 0 {
        s
    } else {
        let rest = drop_matching(s.drop_last(), p);
        if p(s.last()) {
            rest
        } else {
            rest.push(s.last())
        }
    }
}

/// Verification methods other than the one with the given id.
pub open spec fn vms_without(s: Seq<VmView>, id: Seq<char>) -> Seq<VmView> {
    drop_matching(s, |m: VmView| m.id == id)
}

/// Services other than the one with the given id.
pub open spec fn services_without(s: Seq<ServiceView>, id: Seq<char>) -> Seq<ServiceView> {
    drop_matching(s, |x: ServiceView| x.id == id)
}

/// The id of the root key of a DID: `<did>#did-root-key`.
pub open spec fn root_key_id(did: Seq<char>) -> Seq<char> {
    did + "#did-root-key"@
}

/// The document the owner event creates: the DID as id, the given
/// controller, the root key as its only verification method, no services.
pub open spec fn owner_document(did: Seq<char>, controller: Seq<char>, key: Seq<char>) -> DocView {
    DocView {
        id: did,
        controller,
        verification_method: seq![
            VmView {
                id: root_key_id(did),
                method_type: "Ed25519VerificationKey2020"@,
                controller,
                public_key_multibase: key,
            },
        ],
        service: Seq::empty(),
    }
}

/// What has been learned from the events read so far.
pub struct FoldState {
    pub document: Option<DocView>,
    pub deactivated: bool,
}

/// The state before any event.
pub open spec fn initial_state() -> FoldState {
    FoldState { document: None, deactivated: false }
}

/// The effect of one event. Events with an invalid signature, events read
/// before the owner event (other than the owner event itself), repeated owner
/// events, and every event after a deactivation leave the state as it is. An
/// added method or service replaces the one with the same id; a deactivation
/// empties the document's methods and services.
pub open spec fn apply_event(did: Seq<char>, st: FoldState, e: SignedEventView) -> FoldState {
    if !e.signature_valid || st.deactivated {
        st
    } else {
        match st.document {
            None => match e.event {
                EventView::Owner { controller, public_key_multibase } => FoldState {
                    document: Some(owner_document(did, controller, public_key_multibase)),
                    deactivated: false,
                },
                _ => st,
            },
            Some(doc) => match e.event {
                EventView::Owner { .. } => st,
                EventView::AddVerificationMethod(m) => FoldState {
                    document: Some(
                        DocView {
                            verification_method: vms_without(doc.verification_method, m.id).push(m),
                            ..doc
                        },
                    ),
                    deactivated: false,
                },
                EventView::RemoveVerificationMethod(id) => FoldState {
                    document: Some(
                        DocView {
                            verification_method: vms_without(doc.verification_method, id),
                            ..doc
                        },
                    ),
                    deactivated: false,
                },
                EventView::AddService(s) => FoldState {
                    document: Some(
                        DocView { service: services_without(doc.service, s.id).push(s), ..doc },
                    ),
                    deactivated: false,
                },
                EventView::RemoveService(id) => FoldState {
                    document: Some(DocView { service: services_without(doc.service, id), ..doc }),
                    deactivated: false,
                },
                EventView::Deactivate => FoldState {
                    document: Some(
                        DocView { verification_method: Seq::empty(), service: Seq::empty(), ..doc },
                    ),
                    deactivated: true,
                },
            },
        }
    }
}

/// The state after the events `es`, in order.
pub open spec fn fold_events(did: Seq<char>, es: Seq<SignedEventView>) -> FoldState
    decreases es.len(),
{
    if es.len() == 0 {
        initial_state()
    } else {
        apply_event(did, fold_events(did, es.drop_last()), es.last())
    }
}

/// The document built so far from a DID's events, and whether a deactivation
/// has been read.
struct Resolving {
    document: Option<DIDDocument>,
    deactivated: bool,
}

impl View for Resolving {
    type V = FoldState;

    closed spec fn view(&self) -> FoldState {
        FoldState {
            document: match self.document {
                Some(d) => Some(d@),
                None => None,
            },
            deactivated: self.deactivated,
        }
    }
}

fn copy_vm(m: &VerificationMethod) -> (r: VerificationMethod)
    ensures
        r@ == m@,
{
    VerificationMethod {
        id: m.id.clone(),
        method_type: m.method_type.clone(),
        controller: m.controller.clone(),
        public_key_multibase: m.public_key_multibase.clone(),
    }
}

fn copy_service(s: &Service) -> (r: Service)
    ensures
        r@ == s@,
{
    Service {
        id: s.id.clone(),
        service_type: s.service_type.clone(),
        service_endpoint: s.service_endpoint.clone(),
    }
}

/// The verification methods of `v` other than the one with id `id`.
fn vms_remove_id(v: &Vec<VerificationMethod>, id: &String) -> (r: Vec<VerificationMethod>)
    ensures
        vms_view(r@) == vms_without(vms_view(v@), id@),
{
    let ghost whole = vms_view(v@);
    let mut out: Vec<VerificationMethod> = Vec::new();
    let mut i: usize = 0;
    assert(whole.take(0) =~= Seq::<VmView>::empty());
    assert(vms_view(out@) =~= Seq::<VmView>::empty());
    while i < v.len()
        invariant
            i <= v@.len(),
            whole == vms_view(v@),
            vms_view(out@) == vms_without(whole.take(i as int), id@),
        decreases v@.len() - i,
    {
        assert(whole.take(i + 1).drop_last() =~= whole.take(i as int));
        assert(whole.take(i + 1).last() == v@[i as int]@);
        if v[i].id != *id {
            let m = copy_vm(&v[i]);
            out.push(m);
            assert(vms_view(out@) =~= vms_without(whole.take(i as int), id@).push(v@[i as int]@));
        }
        i = i + 1;
    }
    assert(whole.take(v@.len() as int) =~= whole);
    out
}

/// The services of `v` other than the one with id `id`.
fn services_remove_id(v: &Vec<Service>, id: &String) -> (r: Vec<Service>)
    ensures
        services_view(r@) == services_without(services_view(v@), id@),
{
    let ghost whole = services_view(v@);
    let mut out: Vec<Service> = Vec::new();
    let mut i: usize = 0;
    assert(whole.take(0) =~= Seq::<ServiceView>::empty());
    assert(services_view(out@) =~= Seq::<ServiceView>::empty());
    while i < v.len()
        invariant
            i <= v@.len(),
            whole == services_view(v@),
            services_view(out@) == services_without(whole.take(i as int), id@),
        decreases v@.len() - i,
    {
        assert(whole.take(i + 1).drop_last() =~= whole.take(i as int));
        assert(whole.take(i + 1).last() == v@[i as int]@);
        if v[i].id != *id {
            let x = copy_service(&v[i]);
            out.push(x);
            assert(services_view(out@) =~= services_without(whole.take(i as int), id@).push(
                v@[i as int]@,
            ));
        }
        i = i + 1;
    }
    assert(whole.take(v@.len() as int) =~= whole);
    out
}

/// Applies one event to the state, as `apply_event` says.
fn apply_event_exec(did: &String, st: Resolving, e: &SignedEvent) -> (r: Resolving)
    ensures
        r@ == apply_event(did@, st@, e@),
{
    if !e.signature_valid || st.deactivated {
        return st;
    }
    match st.document {
        None => match &e.event {
            DidEvent::Owner { controller, public_key_multibase } => {
                let mut key_id = did.clone();
                key_id.append("#did-root-key");
                let root = VerificationMethod {
                    id: key_id,
                    method_type: "Ed25519VerificationKey2020".to_owned(),
                    controller: controller.clone(),
                    public_key_multibase: public_key_multibase.clone(),
                };
                let mut vms: Vec<VerificationMethod> = Vec::new();
                vms.push(root);
                let doc = DIDDocument {
                    id: did.clone(),
                    controller: controller.clone(),
                    verification_method: vms,
                    service: Vec::new(),
                };
                let r = Resolving { document: Some(doc), deactivated: false };
                assert(r@.document->Some_0.verification_method =~= owner_document(
                    did@,
                    controller@,
                    public_key_multibase@,
                ).verification_method);
                assert(r@.document->Some_0.service =~= Seq::<ServiceView>::empty());
                r
            },
            _ => Resolving { document: None, deactivated: false },
        },
        Some(mut doc) => {
            let ghost d0 = doc@;
            match &e.event {
                DidEvent::Owner { .. } => Resolving { document: Some(doc), deactivated: false },
                DidEvent::AddVerificationMethod(m) => {
                    let mut vms = vms_remove_id(&doc.verification_method, &m.id);
                    vms.push(copy_vm(m));
                    assert(vms_view(vms@) =~= vms_without(d0.verification_method, m.id@).push(m@));
                    doc.verification_method = vms;
                    Resolving { document: Some(doc), deactivated: false }
                },
                DidEvent::RemoveVerificationMethod(id) => {
                    let vms = vms_remove_id(&doc.verification_method, id);
                    doc.verification_method = vms;
                    Resolving { document: Some(doc), deactivated: false }
                },
                DidEvent::AddService(x) => {
                    let mut svcs = services_remove_id(&doc.service, &x.id);
                    svcs.push(copy_service(x));
                    assert(services_view(svcs@) =~= services_without(d0.service, x.id@).push(x@));
                    doc.service = svcs;
                    Resolving { document: Some(doc), deactivated: false }
                },
                DidEvent::RemoveService(id) => {
                    let svcs = services_remove_id(&doc.service, id);
                    doc.service = svcs;
                    Resolving { document: Some(doc), deactivated: false }
                },
                DidEvent::Deactivate => {
                    doc.verification_method = Vec::new();
                    doc.service = Vec::new();
                    let r = Resolving { document: Some(doc), deactivated: true };
                    assert(r@.document->Some_0.verification_method =~= Seq::<VmView>::empty());
                    assert(r@.document->Some_0.service =~= Seq::<ServiceView>::empty());
                    r
                },
            }
        },
    }
}

/// Resolves a DID from the events read from its topic: the document built by
/// folding the events in order, with whether it is deactivated. Without a
/// validly signed owner event there is no document.
pub fn resolve_events(did: &HederaDid, events: &Vec<SignedEvent>) -> (r: Result<DIDResolution, DIDError>)
    ensures
        match fold_events(did_text(did@), events_view(events@)).document {
            Some(doc) => r matches Ok(res) && res.did_document@ == doc
                && res.did_document_metadata.deactivated == Some(fold_events(
                did_text(did@),
                events_view(events@),
            ).deactivated),
            None => r matches Err(e) && e is NotFound && e.message() == "no DID owner message found on the topic"@,
        },
{
    let did_string = did.to_did_string();
    let ghost evs = events_view(events@);
    let mut st = Resolving { document: None, deactivated: false };
    let mut i: usize = 0;
    while i < events.len()
        invariant
            i <= events@.len(),
            evs == events_view(events@),
            did_string@ == did_text(did@),
            st@ == fold_events(did_string@, evs.take(i as int)),
        decreases events@.len() - i,
    {
        assert(evs.take(i + 1).drop_last() =~= evs.take(i as int));
        assert(evs.take(i + 1).last() == events@[i as int]@);
        st = apply_event_exec(&did_string, st, &events[i]);
        i = i + 1;
    }
    assert(evs.take(events@.len() as int) =~= evs);
    match st.document {
        Some(doc) => Ok(
            DIDResolution {
                did_document: doc,
                did_document_metadata: DIDDocumentMetadata { deactivated: Some(st.deactivated) },
            },
        ),
        None => Err(DIDError::NotFound("no DID owner message found on the topic".to_owned())),
    }
}

} // verus!
