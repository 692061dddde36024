//! Reading the answer to an introspection request on the message bus.
//!
//! A service describes an object and its children in XML.  The children
//! are the `node` elements directly below the document's root; each one's
//! `name` attribute is the last part of the child's path.  Parsing is the
//! `xml` crate's work; walking the events is done here.

use vstd::prelude::*;
use xml::reader::EventReader;

use crate::plan::text_view;

verus! {

/// `xml::reader::Error`, what the parser found wrong with a document.
#[verifier::external_type_specification]
#[verifier::external_body]
pub struct ExXmlError(xml::reader::Error);

/// One step of the parser through a document.
#[derive(Debug, Clone, PartialEq, Eq)]
pub enum XmlEvent {
    /// An element opens: its local name, and its attributes by local name
    /// and value.
    Open { name: String, attributes: Vec<(String, String)> },
    /// An element closes.
    Close,
    /// Anything else: text, comments, the document's start and end.
    Other,
}

/// The model of an [`XmlEvent`].
pub enum XmlEventView {
    Open { name: Seq<char>, attributes: Seq<(Seq<char>, Seq<char>)> },
    Close,
    Other,
}

impl View for XmlEvent {
    type V = XmlEventView;

    open spec fn view(&self) -> XmlEventView {
        match self {
            XmlEvent::Open { name, attributes } => XmlEventView::Open {
                name: name@,
                attributes: attributes.deep_view(),
            },
            XmlEvent::Close => XmlEventView::Close,
            XmlEvent::Other => XmlEventView::Other,
        }
    }
}

/// A document that is not well-formed XML.
#[derive(Debug)]
pub struct XmlError {
    /// What the parser found.
    pub cause: xml::reader::Error,
}

/// The model of one item that the parser hands out: an event, or `None`
/// where it gave up.
pub open spec fn step_view(step: Result<XmlEvent, xml::reader::Error>) -> Option<XmlEventView> {
    match step {
        Ok(event) => Some(event@),
        Err(_) => None,
    }
}

/// The model of all that the parser hands out.
pub open spec fn steps_view(steps: Seq<Result<XmlEvent, xml::reader::Error>>) -> Seq<
    Option<XmlEventView>,
> {
    Seq::new(steps.len(), |i: int| step_view(steps[i]))
}

/// What the parser hands out for a document, in order.
pub uninterp spec fn xml_events(document: Seq<char>) -> Seq<Option<XmlEventView>>;

/// How many elements are open after `steps`: one more for each that opens,
/// one less for each that closes.
pub open spec fn depth_after(steps: Seq<Option<XmlEventView>>) -> int
    decreases steps.len(),
{
    if steps.len() == 0 {
        0
    } else {
        depth_after(steps.drop_last()) + (match steps.last() {
            Some(XmlEventView::Open { .. }) => 1int,
            Some(XmlEventView::Close) => -1int,
            _ => 0int,
        })
    }
}

/// Whether the last of `steps` opens a child: a `node` element directly
/// below the root.
pub open spec fn opens_child(steps: Seq<Option<XmlEventView>>) -> bool {
    &&& steps.len() > 0
    &&& steps.last() matches Some(XmlEventView::Open { name, .. })
    &&& name == "node"@
    &&& depth_after(steps.drop_last()) == 1
}

/// The attributes of the last of `steps`, where it opens an element.
pub open spec fn last_attributes(steps: Seq<Option<XmlEventView>>) -> Seq<(Seq<char>, Seq<char>)> {
    match steps.last() {
        Some(XmlEventView::Open { attributes, .. }) => attributes,
        _ => Seq::empty(),
    }
}

/// The values of the attributes called `name`, in order.
pub open spec fn names_in(attributes: Seq<(Seq<char>, Seq<char>)>) -> Seq<Seq<char>>
    decreases attributes.len(),
{
    if attributes.len() == 0 {
        Seq::empty()
    } else {
        let before = names_in(attributes.drop_last());
        if attributes.last().0 == "name"@ {
            before.push(attributes.last().1)
        } else {
            before
        }
    }
}

/// The names of all children, in the order of the document.
pub open spec fn child_names(steps: Seq<Option<XmlEventView>>) -> Seq<Seq<char>>
    decreases steps.len(),
{
    if steps.len() == 0 {
        Seq::empty()
    } else if opens_child(steps) {
        child_names(steps.drop_last()) + names_in(last_attributes(steps))
    } else {
        child_names(steps.drop_last())
    }
}

/// The first name of the last child, if that child has one.
pub open spec fn last_child_name(steps: Seq<Option<XmlEventView>>) -> Option<Seq<char>>
    decreases steps.len(),
{
    if steps.len() == 0 {
        None
    } else if opens_child(steps) {
        if names_in(last_attributes(steps)).len() > 0 {
            Some(names_in(last_attributes(steps))[0])
        } else {
            None
        }
    } else {
        last_child_name(steps.drop_last())
    }
}

/// Whether `cause` is the first error among `steps`.
pub open spec fn first_failure(
    steps: Seq<Result<XmlEvent, xml::reader::Error>>,
    cause: xml::reader::Error,
) -> bool {
    exists|i: int|
        {
            &&& 0 <= i < steps.len()
            &&& steps[i] == Err::<XmlEvent, xml::reader::Error>(cause)
            &&& forall|k: int| 0 <= k < i ==> (#[trigger] steps[k]) is Ok
        }
}

/// Whether the parser gave up somewhere.
pub open spec fn malformed(steps: Seq<Option<XmlEventView>>) -> bool {
    exists|i: int| 0 <= i < steps.len() && steps[i] is None
}

/// Parses a document.  Stands for iterating over `EventReader::from_str`,
/// which yields events until the document ends or an error is found.  Each
/// event is turned into the library's own kind: an element's opening with
/// its local name and its attributes' local names and values, an
/// element's closing, or anything else.
#[verifier::external_body]
pub(crate) fn read_events(document: &str) -> (steps: Vec<Result<XmlEvent, xml::reader::Error>>)
    ensures
        steps_view(steps@) == xml_events(document@),
{
    EventReader::from_str(document).into_iter().map(|step| step.map(|event| match event {
        xml::reader::XmlEvent::StartElement { name, attributes, .. } => XmlEvent::Open {
            name: name.local_name,
            attributes: attributes.into_iter().map(|a| (a.name.local_name, a.value)).collect(),
        },
        xml::reader::XmlEvent::EndElement { .. } => XmlEvent::Close,
        _ => XmlEvent::Other,
    })).collect()
}

/// Collects the values of the attributes called `name`.
pub fn names_of(attributes: &Vec<(String, String)>) -> (names: Vec<String>)
    ensures
        names.deep_view() == names_in(attributes.deep_view()),
{
    let mut names: Vec<String> = Vec::new();
    let mut i: usize = 0;
    while i < attributes.len()
        invariant
            i <= attributes.len(),
            names.deep_view() == names_in(attributes.deep_view().take(i as int)),
        decreases attributes.len() - i,
    {
        proof {
            let upto = attributes.deep_view().take(i + 1);
            assert(upto.drop_last() =~= attributes.deep_view().take(i as int));
            assert(upto.last() == attributes[i as int].deep_view());
        }
        let ghost before = names.deep_view();
        if crate::text::str_eq(attributes[i].0.as_str(), "name") {
            names.push(attributes[i].1.clone());
            proof {
                assert(names.deep_view() =~= before.push(attributes[i as int].1@));
            }
        }
        i = i + 1;
    }
    proof {
        assert(attributes.deep_view().take(attributes.len() as int) =~= attributes.deep_view());
    }
    names
}

/// Walks through what the parser handed out and collects the names of all
/// children.  Fails exactly when the parser gave up.
pub fn children(steps: Vec<Result<XmlEvent, xml::reader::Error>>) -> (found: Result<
    Vec<String>,
    XmlError,
>)
    ensures
        found is Err <==> malformed(steps_view(steps@)),
        found matches Ok(names) ==> names.deep_view() == child_names(steps_view(steps@)),
        found matches Err(error) ==> first_failure(steps@, error.cause),
{
    let ghost all = steps_view(steps@);
    let count = steps.len();
    let mut depth: i128 = 0;
    let mut names: Vec<String> = Vec::new();
    for step in it: steps.into_iter()
        invariant
            it.seq() == steps@,
            all == steps_view(steps@),
            forall|k: int| 0 <= k < it.index() ==> all[k] is Some,
            depth == depth_after(all.take(it.index() as int)),
            -it.index() <= depth <= it.index(),
            it.index() <= steps@.len() == count,
            names.deep_view() == child_names(all.take(it.index() as int)),
    {
        let ghost i = it.index() as int;
        let ghost upto = all.take(i + 1);
        proof {
            assert(upto.drop_last() =~= all.take(i));
            assert(upto.last() == step_view(step));
        }
        match step {
            Ok(XmlEvent::Open { name, attributes }) => {
                if depth == 1 && crate::text::str_eq(name.as_str(), "node") {
                    let mut fresh = names_of(&attributes);
                    let ghost before = names.deep_view();
                    let ghost added = fresh.deep_view();
                    names.append(&mut fresh);
                    proof {
                        assert(names.deep_view() =~= before + added);
                    }
                }
                depth = depth + 1;
            },
            Ok(XmlEvent::Close) => {
                depth = depth - 1;
            },
            Ok(XmlEvent::Other) => {},
            Err(cause) => {
                proof {
                    assert(steps@[i] == Err::<XmlEvent, xml::reader::Error>(cause));
                    assert forall|k: int| 0 <= k < i implies (#[trigger] steps@[k]) is Ok by {
                        assert(all[k] is Some);
                    }
                }
                return Err(XmlError { cause });
            },
        }
    }
    proof {
        assert(all.take(all.len() as int) =~= all);
        assert(!malformed(all));
    }
    Ok(names)
}

/// Walks through what the parser handed out and finds the first name of
/// the last child.  Fails exactly when the parser gave up.
pub fn last_child(steps: Vec<Result<XmlEvent, xml::reader::Error>>) -> (found: Result<
    Option<String>,
    XmlError,
>)
    ensures
        found is Err <==> malformed(steps_view(steps@)),
        found matches Ok(name) ==> text_view(name) == last_child_name(steps_view(steps@)),
        found matches Err(error) ==> first_failure(steps@, error.cause),
{
    let ghost all = steps_view(steps@);
    let count = steps.len();
    let mut depth: i128 = 0;
    let mut name_found: Option<String> = None;
    for step in it: steps.into_iter()
        invariant
            it.seq() == steps@,
            all == steps_view(steps@),
            forall|k: int| 0 <= k < it.index() ==> all[k] is Some,
            depth == depth_after(all.take(it.index() as int)),
            -it.index() <= depth <= it.index(),
            it.index() <= steps@.len() == count,
            text_view(name_found) == last_child_name(all.take(it.index() as int)),
    {
        let ghost i = it.index() as int;
        let ghost upto = all.take(i + 1);
        proof {
            assert(upto.drop_last() =~= all.take(i));
            assert(upto.last() == step_view(step));
        }
        match step {
            Ok(XmlEvent::Open { name, attributes }) => {
                if depth == 1 && crate::text::str_eq(name.as_str(), "node") {
                    let fresh = names_of(&attributes);
                    if fresh.len() > 0 {
                        proof {
                            assert(fresh.deep_view()[0] == fresh[0]@);
                        }
                        name_found = Some(fresh[0].clone());
                    } else {
                        name_found = None;
                    }
                }
                depth = depth + 1;
            },
            Ok(XmlEvent::Close) => {
                depth = depth - 1;
            },
            Ok(XmlEvent::Other) => {},
            Err(cause) => {
                proof {
                    assert(steps@[i] == Err::<XmlEvent, xml::reader::Error>(cause));
                    assert forall|k: int| 0 <= k < i implies (#[trigger] steps@[k]) is Ok by {
                        assert(all[k] is Some);
                    }
                }
                return Err(XmlError { cause });
            },
        }
    }
    proof {
        assert(all.take(all.len() as int) =~= all);
        assert(!malformed(all));
    }
    Ok(name_found)
}

/// The names of the children that a description lists.  Fails exactly
/// when the description is not well-formed.
pub fn child_names_of(description: &str) -> (found: Result<Vec<String>, XmlError>)
    ensures
        found is Err <==> malformed(xml_events(description@)),
        found matches Ok(names) ==> names.deep_view() == child_names(xml_events(description@)),
{
    children(read_events(description))
}

/// The first name of the last child that a description lists.  Fails
/// exactly when the description is not well-formed.
pub fn last_child_of(description: &str) -> (found: Result<Option<String>, XmlError>)
    ensures
        found is Err <==> malformed(xml_events(description@)),
        found matches Ok(name) ==> text_view(name) == last_child_name(xml_events(description@)),
{
    last_child(read_events(description))
}

} // verus!
