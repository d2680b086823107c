//! Camera enumeration: best-effort and platform-specific. Only one
//! platform family has a supported inspection mechanism (a JSON
//! inventory); everywhere else the defined behaviour is an empty list,
//! never an error.

use vstd::prelude::*;

use crate::jsonval::{
    json_as_array, json_as_str, json_field_of, json_get, json_items_of, json_of, json_parse,
    json_str_field,
};
use crate::platform::{Platform, ToolOutput, ToolView};

verus! {

/// The names carried by a sequence of camera entries, in order; an entry
/// without a name field is skipped.
pub open spec fn camera_names_rec(items: Seq<serde_json::Value>) -> Seq<Seq<char>>
    decreases items.len(),
{
    if items.len() == 0 {
        Seq::empty()
    } else {
        camera_names_rec(items.drop_last()) + (match json_str_field(items.last(), "_name"@) {
            Some(n) => seq![n],
            None => Seq::empty(),
        })
    }
}

/// The camera names listed by the JSON inventory: the document's camera
/// array filtered to named entries, and nothing at all when the text is
/// not JSON or carries no such array.
pub open spec fn cameras_json_spec(s: Seq<char>) -> Seq<Seq<char>> {
    match json_of(s) {
        Some(doc) => match json_field_of(doc, "SPCameraDataType"@) {
            Some(arr) => match json_items_of(arr) {
                Some(items) => camera_names_rec(items),
                None => Seq::empty(),
            },
            None => Seq::empty(),
        },
        None => Seq::empty(),
    }
}

/// Read the JSON camera inventory: the name of every named entry, in
/// order; malformed text yields an empty list.
pub fn parse_camera_json(s: &str) -> (r: Vec<String>)
    ensures
        r.deep_view() == cameras_json_spec(s@),
{
    let parsed = json_parse(s);
    match parsed {
        None => {
            let r: Vec<String> = Vec::new();
            proof {
                assert(r.deep_view() =~= cameras_json_spec(s@));
            }
            r
        },
        Some(doc) => {
            match json_get(&doc, "SPCameraDataType") {
                None => {
                    let r: Vec<String> = Vec::new();
                    proof {
                        assert(r.deep_view() =~= cameras_json_spec(s@));
                    }
                    r
                },
                Some(arr) => {
                    match json_as_array(arr) {
                        None => {
                            let r: Vec<String> = Vec::new();
                            proof {
                                assert(r.deep_view() =~= cameras_json_spec(s@));
                            }
                            r
                        },
                        Some(items) => {
                            let mut names: Vec<String> = Vec::new();
                            let mut i: usize = 0;
                            proof {
                                assert(names.deep_view() =~= camera_names_rec(items@.take(0)));
                            }
                            while i < items.len()
                                invariant
                                    0 <= i <= items@.len(),
                                    names.deep_view() =~= camera_names_rec(items@.take(i as int)),
                                decreases items@.len() - i,
                            {
                                match json_get(&items[i], "_name") {
                                    Some(f) => {
                                        match json_as_str(f) {
                                            Some(n) => {
                                                names.push(n.to_owned());
                                            },
                                            None => {},
                                        }
                                    },
                                    None => {},
                                }
                                proof {
                                    assert(items@.take(i as int + 1).drop_last() =~= items@.take(
                                        i as int,
                                    ));
                                    assert(items@.take(i as int + 1).last() == items@[i as int]);
                                    assert(names.deep_view() =~= camera_names_rec(
                                        items@.take(i as int + 1),
                                    ));
                                }
                                i = i + 1;
                            }
                            proof {
                                assert(items@.take(items@.len() as int) =~= items@);
                                assert(names.deep_view() =~= cameras_json_spec(s@));
                            }
                            names
                        },
                    }
                },
            }
        },
    }
}

/// What camera enumeration reports for a platform and a utility outcome:
/// names only where the platform has the JSON inventory and it ran.
pub open spec fn cameras_spec(platform: Platform, tool: ToolView) -> Seq<Seq<char>> {
    match platform {
        Platform::MacOs => match tool {
            ToolView::Text(s) => cameras_json_spec(s),
            _ => Seq::empty(),
        },
        _ => Seq::empty(),
    }
}

/// Camera device names. On a platform without a supported inspection
/// mechanism the list is empty by definition — absence of data, not an
/// error.
pub fn list_cameras(platform: Platform, tool: ToolOutput) -> (r: Vec<String>)
    ensures
        r.deep_view() == cameras_spec(platform, tool@),
        platform != Platform::MacOs ==> r.deep_view() == Seq::<Seq<char>>::empty(),
{
    match platform {
        Platform::MacOs => {
            match tool {
                ToolOutput::Text(s) => parse_camera_json(s.as_str()),
                _ => {
                    let r: Vec<String> = Vec::new();
                    proof {
                        assert(r.deep_view() =~= Seq::<Seq<char>>::empty());
                    }
                    r
                },
            }
        },
        _ => {
            let r: Vec<String> = Vec::new();
            proof {
                assert(r.deep_view() =~= Seq::<Seq<char>>::empty());
            }
            r
        },
    }
}

} // verus!
