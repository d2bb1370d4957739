use vstd::prelude::*;

use crate::dereference::{dereferenced, fragment_id, DereferencedResource};
use crate::did::did_text;
use crate::did_url::DidUrlView;
use crate::document::{
    apply_event, drop_matching, fold_events, services_without, vms_without, DocView, EventView,
    FoldState, ServiceView, SignedEventView, VmView,
};
use crate::error::DIDError;

verus! {

/// No element of `drop_matching(s, p)` satisfies `p`, and every element of `s`
/// that does not satisfy `p` is kept.
pub proof fn lemma_drop_matching<A>(s: Seq<A>, p: spec_fn(A) -> bool)
    ensures
        forall|i: int|
            0 <= i < drop_matching(s, p).len() ==> !p(#[trigger] drop_matching(s, p)[i]),
        forall|i: int| 0 <= i < s.len() && !p(s[i]) ==> drop_matching(s, p).contains(#[trigger] s[i]),
    decreases s.len(),
{
    if s.len() > 0 {
        let rest = drop_matching(s.drop_last(), p);
        lemma_drop_matching(s.drop_last(), p);
        let r = drop_matching(s, p);
        assert forall|i: int| 0 <= i < r.len() implies !p(#[trigger] r[i]) by {
            if !p(s.last()) && i == rest.len() {
            } else {
                assert(r[i] == rest[i]);
            }
        }
        assert forall|i: int| 0 <= i < s.len() && !p(s[i]) implies r.contains(#[trigger] s[i]) by {
            if i < s.len() - 1 {
                assert(s.drop_last()[i] == s[i]);
                let j = choose|j: int| 0 <= j < rest.len() && rest[j] == s[i];
                if !p(s.last()) {
                    assert(r[j] == rest[j]);
                }
            } else {
                assert(r[r.len() - 1] == s[i]);
            }
        }
    }
}

/// Once a deactivation has been read, no later event changes the resolved
/// state: a deactivated DID stays deactivated and is never revived.
pub proof fn lemma_deactivation_is_final(
    did: Seq<char>,
    before: Seq<SignedEventView>,
    after: Seq<SignedEventView>,
)
    requires
        fold_events(did, before).deactivated,
    ensures
        fold_events(did, before + after) == fold_events(did, before),
    decreases after.len(),
{
    if after.len() == 0 {
        assert(before + after =~= before);
    } else {
        lemma_deactivation_is_final(did, before, after.drop_last());
        assert((before + after).drop_last() =~= before + after.drop_last());
        assert((before + after).last() == after.last());
    }
}

/// A deactivated DID's document lists no verification method and no service.
pub proof fn lemma_deactivated_document_is_empty(did: Seq<char>, es: Seq<SignedEventView>)
    ensures
        fold_events(did, es).deactivated ==> (fold_events(did, es).document matches Some(doc)
            && doc.verification_method.len() == 0 && doc.service.len() == 0),
    decreases es.len(),
{
    if es.len() > 0 {
        lemma_deactivated_document_is_empty(did, es.drop_last());
    }
}

/// Whether `e` is a validly signed owner event.
pub open spec fn is_signed_owner(e: SignedEventView) -> bool {
    e.signature_valid && e.event is Owner
}

/// A DID resolves to a document exactly when its topic holds a validly signed
/// owner event.
pub proof fn lemma_document_needs_owner(did: Seq<char>, es: Seq<SignedEventView>)
    ensures
        fold_events(did, es).document is Some <==> exists|i: int|
            0 <= i < es.len() && is_signed_owner(#[trigger] es[i]),
    decreases es.len(),
{
    if es.len() > 0 {
        let prev = es.drop_last();
        lemma_document_needs_owner(did, prev);
        lemma_deactivated_document_is_empty(did, prev);
        let st = fold_events(did, prev);
        let e = es.last();
        assert(fold_events(did, es) == apply_event(did, st, e));
        if st.document is Some {
            assert(apply_event(did, st, e).document is Some);
        } else {
            assert(apply_event(did, st, e).document is Some <==> is_signed_owner(e));
        }
        if exists|i: int| 0 <= i < es.len() && is_signed_owner(#[trigger] es[i]) {
            let i = choose|i: int| 0 <= i < es.len() && is_signed_owner(#[trigger] es[i]);
            if i < es.len() - 1 {
                assert(is_signed_owner(prev[i]));
            }
        }
        if exists|i: int| 0 <= i < prev.len() && is_signed_owner(#[trigger] prev[i]) {
            let i = choose|i: int| 0 <= i < prev.len() && is_signed_owner(#[trigger] prev[i]);
            assert(is_signed_owner(es[i]));
        }
        if is_signed_owner(es.last()) {
            assert(is_signed_owner(es[es.len() - 1]));
        }
    }
}

/// The events of `es` whose signature is valid, in order.
pub open spec fn validly_signed(es: Seq<SignedEventView>) -> Seq<SignedEventView> {
    drop_matching(es, |e: SignedEventView| !e.signature_valid)
}

/// Events whose signature does not verify have no effect on the resolved
/// state: resolving all events equals resolving only the validly signed ones.
pub proof fn lemma_invalid_signatures_ignored(did: Seq<char>, es: Seq<SignedEventView>)
    ensures
        fold_events(did, es) == fold_events(did, validly_signed(es)),
    decreases es.len(),
{
    if es.len() > 0 {
        lemma_invalid_signatures_ignored(did, es.drop_last());
        let v = validly_signed(es);
        if es.last().signature_valid {
            assert(v.drop_last() =~= validly_signed(es.drop_last()));
            assert(v.last() == es.last());
        }
    }
}

/// After a validly signed removal of a service from a live document, no
/// service with that id is listed, and every other service is kept.
pub proof fn lemma_remove_service(did: Seq<char>, st: FoldState, id: Seq<char>)
    requires
        st.document is Some,
        !st.deactivated,
    ensures
        ({
            let r = apply_event(
                did,
                st,
                SignedEventView { event: EventView::RemoveService(id), signature_valid: true },
            );
            let before = st.document->Some_0.service;
            let after = r.document->Some_0.service;
            &&& r.document is Some
            &&& forall|i: int| 0 <= i < after.len() ==> (#[trigger] after[i]).id != id
            &&& forall|i: int|
                0 <= i < before.len() && before[i].id != id ==> after.contains(#[trigger] before[i])
            &&& r.document->Some_0.verification_method == st.document->Some_0.verification_method
        }),
{
    let before = st.document->Some_0.service;
    lemma_drop_matching(before, |x: ServiceView| x.id == id);
}

/// After a validly signed addition of a service to a live document, that
/// service is the last one listed and the only one with its id.
pub proof fn lemma_add_service(did: Seq<char>, st: FoldState, svc: ServiceView)
    requires
        st.document is Some,
        !st.deactivated,
    ensures
        ({
            let r = apply_event(
                did,
                st,
                SignedEventView { event: EventView::AddService(svc), signature_valid: true },
            );
            let before = st.document->Some_0.service;
            let after = r.document->Some_0.service;
            &&& r.document is Some
            &&& after.len() > 0 && after.last() == svc
            &&& forall|i: int| 0 <= i < after.len() - 1 ==> (#[trigger] after[i]).id != svc.id
            &&& forall|i: int|
                0 <= i < before.len() && before[i].id != svc.id ==> after.contains(
                    #[trigger] before[i],
                )
            &&& r.document->Some_0.verification_method == st.document->Some_0.verification_method
        }),
{
    let before = st.document->Some_0.service;
    let kept = services_without(before, svc.id);
    lemma_drop_matching(before, |x: ServiceView| x.id == svc.id);
    let after = kept.push(svc);
    assert forall|i: int| 0 <= i < after.len() - 1 implies (#[trigger] after[i]).id != svc.id by {
        assert(after[i] == kept[i]);
    }
    assert forall|i: int| 0 <= i < before.len() && before[i].id != svc.id implies after.contains(
        #[trigger] before[i],
    ) by {
        let j = choose|j: int| 0 <= j < kept.len() && kept[j] == before[i];
        assert(after[j] == kept[j]);
    }
}

/// After a validly signed removal of a verification method from a live
/// document, no method with that id is listed, and every other one is kept.
pub proof fn lemma_remove_verification_method(did: Seq<char>, st: FoldState, id: Seq<char>)
    requires
        st.document is Some,
        !st.deactivated,
    ensures
        ({
            let r = apply_event(
                did,
                st,
                SignedEventView {
                    event: EventView::RemoveVerificationMethod(id),
                    signature_valid: true,
                },
            );
            let before = st.document->Some_0.verification_method;
            let after = r.document->Some_0.verification_method;
            &&& r.document is Some
            &&& forall|i: int| 0 <= i < after.len() ==> (#[trigger] after[i]).id != id
            &&& forall|i: int|
                0 <= i < before.len() && before[i].id != id ==> after.contains(#[trigger] before[i])
            &&& r.document->Some_0.service == st.document->Some_0.service
        }),
{
    let before = st.document->Some_0.verification_method;
    lemma_drop_matching(before, |m: VmView| m.id == id);
}

/// After a validly signed addition of a verification method to a live
/// document, that method is the last one listed and the only one with its id.
pub proof fn lemma_add_verification_method(did: Seq<char>, st: FoldState, vm: VmView)
    requires
        st.document is Some,
        !st.deactivated,
    ensures
        ({
            let r = apply_event(
                did,
                st,
                SignedEventView { event: EventView::AddVerificationMethod(vm), signature_valid: true },
            );
            let before = st.document->Some_0.verification_method;
            let after = r.document->Some_0.verification_method;
            &&& r.document is Some
            &&& after.len() > 0 && after.last() == vm
            &&& forall|i: int| 0 <= i < after.len() - 1 ==> (#[trigger] after[i]).id != vm.id
            &&& forall|i: int|
                0 <= i < before.len() && before[i].id != vm.id ==> after.contains(
                    #[trigger] before[i],
                )
            &&& r.document->Some_0.service == st.document->Some_0.service
        }),
{
    let before = st.document->Some_0.verification_method;
    let kept = vms_without(before, vm.id);
    lemma_drop_matching(before, |m: VmView| m.id == vm.id);
    let after = kept.push(vm);
    assert forall|i: int| 0 <= i < after.len() - 1 implies (#[trigger] after[i]).id != vm.id by {
        assert(after[i] == kept[i]);
    }
    assert forall|i: int| 0 <= i < before.len() && before[i].id != vm.id implies after.contains(
        #[trigger] before[i],
    ) by {
        let j = choose|j: int| 0 <= j < kept.len() && kept[j] == before[i];
        assert(after[j] == kept[j]);
    }
}

/// The fold of `es` followed by one more event.
proof fn lemma_fold_push(did: Seq<char>, es: Seq<SignedEventView>, e: SignedEventView)
    ensures
        fold_events(did, es.push(e)) == apply_event(did, fold_events(did, es), e),
{
    assert(es.push(e).drop_last() =~= es);
    assert(es.push(e).last() == e);
}

/// A replayed owner (create) message changes nothing: once a DID has a
/// document, appending another owner event, signed or not and whatever it
/// carries, leaves the resolved document and the deactivated flag as they
/// were.
pub proof fn lemma_replayed_owner_changes_nothing(
    did: Seq<char>,
    es: Seq<SignedEventView>,
    controller: Seq<char>,
    key: Seq<char>,
    signature_valid: bool,
)
    requires
        fold_events(did, es).document is Some,
    ensures
        fold_events(
            did,
            es.push(
                SignedEventView {
                    event: EventView::Owner { controller, public_key_multibase: key },
                    signature_valid,
                },
            ),
        ) == fold_events(did, es),
{
    lemma_fold_push(
        did,
        es,
        SignedEventView {
            event: EventView::Owner { controller, public_key_multibase: key },
            signature_valid,
        },
    );
}

/// The first validly signed owner event creates the document: the DID as
/// its id, the event's controller as its controller (whatever that
/// controller is), the root key `<did>#did-root-key` of type
/// `Ed25519VerificationKey2020` with the event's key as its only
/// verification method, no services, and not deactivated.
pub proof fn lemma_first_owner_creates_the_document(
    did: Seq<char>,
    es: Seq<SignedEventView>,
    controller: Seq<char>,
    key: Seq<char>,
)
    requires
        fold_events(did, es).document is None,
    ensures
        ({
            let r = fold_events(
                did,
                es.push(
                    SignedEventView {
                        event: EventView::Owner { controller, public_key_multibase: key },
                        signature_valid: true,
                    },
                ),
            );
            &&& !r.deactivated
            &&& r.document matches Some(d) && d.id == did && d.controller == controller
                && d.service.len() == 0 && d.verification_method.len() == 1
                && d.verification_method[0] == VmView {
                id: did + "#did-root-key"@,
                method_type: "Ed25519VerificationKey2020"@,
                controller,
                public_key_multibase: key,
            }
        }),
{
    lemma_deactivated_document_is_empty(did, es);
    lemma_fold_push(
        did,
        es,
        SignedEventView {
            event: EventView::Owner { controller, public_key_multibase: key },
            signature_valid: true,
        },
    );
}

/// Once a DID has a document, no later events change the document's id or
/// its controller: adding or removing verification methods or services,
/// replayed owner events and deactivation all keep them.
pub proof fn lemma_id_and_controller_are_fixed(
    did: Seq<char>,
    before: Seq<SignedEventView>,
    after: Seq<SignedEventView>,
)
    requires
        fold_events(did, before).document is Some,
    ensures
        fold_events(did, before + after).document matches Some(d) && d.id == fold_events(
            did,
            before,
        ).document->Some_0.id && d.controller == fold_events(did, before).document->Some_0.controller,
    decreases after.len(),
{
    if after.len() == 0 {
        assert(before + after =~= before);
    } else {
        lemma_id_and_controller_are_fixed(did, before, after.drop_last());
        assert((before + after).drop_last() =~= before + after.drop_last());
        assert((before + after).last() == after.last());
    }
}

/// Dereferencing a fragment finds a verification method wherever it stands
/// in the document: when some method has id `<did>#<fragment>`, the result is
/// the first method with that id.
pub proof fn lemma_dereference_finds_any_method(
    u: DidUrlView,
    doc: DocView,
    r: Result<DereferencedResource, DIDError>,
    k: int,
)
    requires
        u.path is None,
        u.query is None,
        u.fragment is Some,
        dereferenced(u, doc, r),
        0 <= k < doc.verification_method.len(),
        doc.verification_method[k].id == fragment_id(did_text(u.did), u.fragment->Some_0),
    ensures
        ({
            let id = fragment_id(did_text(u.did), u.fragment->Some_0);
            let vms = doc.verification_method;
            r matches Ok(DereferencedResource::VerificationMethod(m)) && m@.id == id && exists|i: int|
                0 <= i <= k && m@ == vms[i] && forall|j: int| 0 <= j < i ==> (#[trigger] vms[j]).id != id
        }),
{
    let id = fragment_id(did_text(u.did), u.fragment->Some_0);
    let vms = doc.verification_method;
    assert(vms[k].id == id);
    let m = r->Ok_0->VerificationMethod_0;
    let i = choose|i: int|
        0 <= i < vms.len() && vms[i].id == id && (forall|j: int|
            0 <= j < i ==> (#[trigger] vms[j]).id != id) && m@ == vms[i];
    if i > k {
        assert(vms[k].id != id);
    }
}

/// Dereferencing a fragment that names no verification method finds a
/// service wherever it stands in the document: when some service has id
/// `<did>#<fragment>`, the result is the first service with that id.
pub proof fn lemma_dereference_finds_any_service(
    u: DidUrlView,
    doc: DocView,
    r: Result<DereferencedResource, DIDError>,
    k: int,
)
    requires
        u.path is None,
        u.query is None,
        u.fragment is Some,
        dereferenced(u, doc, r),
        forall|i: int|
            0 <= i < doc.verification_method.len() ==> (#[trigger] doc.verification_method[i]).id
                != fragment_id(did_text(u.did), u.fragment->Some_0),
        0 <= k < doc.service.len(),
        doc.service[k].id == fragment_id(did_text(u.did), u.fragment->Some_0),
    ensures
        ({
            let id = fragment_id(did_text(u.did), u.fragment->Some_0);
            let svcs = doc.service;
            r matches Ok(DereferencedResource::Service(x)) && x@.id == id && exists|i: int|
                0 <= i <= k && x@ == svcs[i] && forall|j: int| 0 <= j < i ==> (#[trigger] svcs[j]).id != id
        }),
{
    let id = fragment_id(did_text(u.did), u.fragment->Some_0);
    let svcs = doc.service;
    assert(svcs[k].id == id);
    let x = r->Ok_0->Service_0;
    let i = choose|i: int|
        0 <= i < svcs.len() && svcs[i].id == id && (forall|j: int|
            0 <= j < i ==> (#[trigger] svcs[j]).id != id) && x@ == svcs[i];
    if i > k {
        assert(svcs[k].id != id);
    }
}

/// Dereferencing a fragment fails only when nothing in the document has the
/// id `<did>#<fragment>`: a `NotFound` means no verification method and no
/// service carries that id.
pub proof fn lemma_dereference_not_found_means_absent(
    u: DidUrlView,
    doc: DocView,
    r: Result<DereferencedResource, DIDError>,
)
    requires
        u.path is None,
        u.query is None,
        u.fragment is Some,
        dereferenced(u, doc, r),
        r is Err,
    ensures
        ({
            let id = fragment_id(did_text(u.did), u.fragment->Some_0);
            &&& forall|i: int|
                0 <= i < doc.verification_method.len() ==> (#[trigger] doc.verification_method[i]).id
                    != id
            &&& forall|i: int| 0 <= i < doc.service.len() ==> (#[trigger] doc.service[i]).id != id
            &&& r->Err_0 is NotFound && r->Err_0.message() == id
        }),
{
}

/// A DID URL without a fragment, path or query dereferences to the whole
/// document, unchanged; a URL with a path or a query is refused with
/// `InvalidArgument` whatever the document holds.
pub proof fn lemma_dereference_without_fragment(
    u: DidUrlView,
    doc: DocView,
    r: Result<DereferencedResource, DIDError>,
)
    requires
        dereferenced(u, doc, r),
    ensures
        (u.path is Some || u.query is Some) ==> (r is Err && r->Err_0 is InvalidArgument),
        (u.path is None && u.query is None && u.fragment is None) ==> (r matches Ok(
            DereferencedResource::Document(d),
        ) && d@ == doc),
{
}

} // verus!
