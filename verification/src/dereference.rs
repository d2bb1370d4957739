use vstd::prelude::*;

use crate::did::did_text;
use crate::did_url::{DidUrlView, HederaDidUrl};
use crate::document::{
    events_view, fold_events, resolve_events, services_view, vms_view, DIDDocument, DocView,
    Service, ServiceView, SignedEvent, VerificationMethod, VmView,
};
use crate::error::DIDError;

verus! {

/// What a DID URL points at in a resolved document.
#[derive(Debug)]
pub enum DereferencedResource {
    Document(DIDDocument),
    VerificationMethod(VerificationMethod),
    Service(Service),
}

/// `i` is the first position of `s` holding a verification method with id `id`.
pub open spec fn first_vm_with_id(s: Seq<VmView>, id: Seq<char>, i: int) -> bool {
    &&& 0 <= i < s.len()
    &&& s[i].id == id
    &&& forall|j: int| 0 <= j < i ==> (#[trigger] s[j]).id != id
}

/// `i` is the first position of `s` holding a service with id `id`.
pub open spec fn first_service_with_id(s: Seq<ServiceView>, id: Seq<char>, i: int) -> bool {
    &&& 0 <= i < s.len()
    &&& s[i].id == id
    &&& forall|j: int| 0 <= j < i ==> (#[trigger] s[j]).id != id
}

/// The full id a fragment names: `<did>#<fragment>`.
pub open spec fn fragment_id(did: Seq<char>, fragment: Seq<char>) -> Seq<char> {
    did + seq!['#'] + fragment
}

/// The position of the first verification method with id `id`, if any.
fn find_vm(v: &Vec<VerificationMethod>, id: &String) -> (r: Option<usize>)
    ensures
        match r {
            Some(i) => first_vm_with_id(vms_view(v@), id@, i as int),
            None => forall|j: int| 0 <= j < v@.len() ==> (#[trigger] vms_view(v@)[j]).id != id@,
        },
{
    let mut i: usize = 0;
    while i < v.len()
        invariant
            i <= v@.len(),
            forall|j: int| 0 <= j < i ==> (#[trigger] vms_view(v@)[j]).id != id@,
        decreases v@.len() - i,
    {
        if v[i].id == *id {
            return Some(i);
        }
        i = i + 1;
    }
    None
}

/// The position of the first service with id `id`, if any.
fn find_service(v: &Vec<Service>, id: &String) -> (r: Option<usize>)
    ensures
        match r {
            Some(i) => first_service_with_id(services_view(v@), id@, i as int),
            None => forall|j: int| 0 <= j < v@.len() ==> (#[trigger] services_view(v@)[j]).id != id@,
        },
{
    let mut i: usize = 0;
    while i < v.len()
        invariant
            i <= v@.len(),
            forall|j: int| 0 <= j < i ==> (#[trigger] services_view(v@)[j]).id != id@,
        decreases v@.len() - i,
    {
        if v[i].id == *id {
            return Some(i);
        }
        i = i + 1;
    }
    None
}

/// What dereferencing the DID URL `u` against the document `doc` gives. A
/// URL without a fragment gives the whole document; a fragment names the
/// resource with id `<did>#<fragment>`, searched first among the verification
/// methods and then among the services. Paths and query parameters are not
/// supported.
pub open spec fn dereferenced(
    u: DidUrlView,
    doc: DocView,
    r: Result<DereferencedResource, DIDError>,
) -> bool {
    let vms = doc.verification_method;
    let svcs = doc.service;
    if u.path is Some || u.query is Some {
        r matches Err(e) && e is InvalidArgument && e.message()
            == "path and query parameters are not supported by dereference"@
    } else {
        match u.fragment {
            None => r matches Ok(DereferencedResource::Document(d)) && d@ == doc,
            Some(f) => {
                let id = fragment_id(did_text(u.did), f);
                if exists|i: int| 0 <= i < vms.len() && (#[trigger] vms[i]).id == id {
                    r matches Ok(DereferencedResource::VerificationMethod(m)) && exists|i: int|
                        first_vm_with_id(vms, id, i) && m@ == vms[i]
                } else if exists|i: int| 0 <= i < svcs.len() && (#[trigger] svcs[i]).id == id {
                    r matches Ok(DereferencedResource::Service(x)) && exists|i: int|
                        first_service_with_id(svcs, id, i) && x@ == svcs[i]
                } else {
                    r matches Err(e) && e is NotFound && e.message() == id
                }
            },
        }
    }
}

/// Dereferences a DID URL against the resolved document of its DID.
pub fn dereference(url: &HederaDidUrl, document: DIDDocument) -> (r: Result<DereferencedResource, DIDError>)
    ensures
        dereferenced(url@, document@, r),
{
    if url.path.is_some() || url.query.is_some() {
        return Err(
            DIDError::InvalidArgument(
                "path and query parameters are not supported by dereference".to_owned(),
            ),
        );
    }
    match &url.fragment {
        None => Ok(DereferencedResource::Document(document)),
        Some(f) => {
            let mut id = url.did.to_did_string();
            proof {
                reveal_strlit("#");
            }
            id.append("#");
            id.append(f.as_str());
            assert(id@ =~= fragment_id(did_text(url@.did), f@));
            let ghost vms = vms_view(document.verification_method@);
            let ghost svcs = services_view(document.service@);
            assert(vms == document@.verification_method);
            assert(svcs == document@.service);
            let mut document = document;
            match find_vm(&document.verification_method, &id) {
                Some(i) => {
                    let m = document.verification_method.remove(i);
                    assert(m@ == vms[i as int]);
                    assert(vms[i as int].id == id@);
                    assert(first_vm_with_id(vms, id@, i as int) && m@ == vms[i as int]);
                    Ok(DereferencedResource::VerificationMethod(m))
                },
                None => match find_service(&document.service, &id) {
                    Some(j) => {
                        let x = document.service.remove(j);
                        assert(x@ == svcs[j as int]);
                        assert(svcs[j as int].id == id@);
                        assert(first_service_with_id(svcs, id@, j as int) && x@ == svcs[j as int]);
                        Ok(DereferencedResource::Service(x))
                    },
                    None => Err(DIDError::NotFound(id)),
                },
            }
        },
    }
}

/// Resolves the DID of a URL from the events read from its topic, then
/// dereferences the URL against the resulting document. A topic without an
/// owner event gives `resolve_events`'s `NotFound`, before the URL is looked at.
pub fn dereference_events(url: &HederaDidUrl, events: &Vec<SignedEvent>) -> (r: Result<
    DereferencedResource,
    DIDError,
>)
    ensures
        match fold_events(did_text(url@.did), events_view(events@)).document {
            Some(doc) => dereferenced(url@, doc, r),
            None => r matches Err(e) && e is NotFound && e.message()
                == "no DID owner message found on the topic"@,
        },
{
    match resolve_events(&url.did, events) {
        Ok(resolution) => dereference(url, resolution.did_document),
        Err(e) => Err(e),
    }
}

} // verus!
