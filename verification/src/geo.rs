use vstd::prelude::*;
use vstd::string::StrSliceExecFns;

use crate::query::{encode_query, urlencoding};
use vstd::string::StringExecFns;

use crate::text::{join, join_with, starts_with, views};

verus! {

/// Why a weather or geocoding request produced no usable answer.
#[derive(Debug, Clone, PartialEq, Eq)]
pub enum WeatherError {
    /// The request failed or its body could not be read.
    Network(String),
    /// The body was not the expected JSON.
    Parse(String),
    /// The service answered, but with nothing usable.
    NoResults,
}

/// The message of a request error.
pub open spec fn error_message(e: WeatherError) -> Seq<char> {
    match e {
        WeatherError::Network(d) => "network: "@ + d@,
        WeatherError::Parse(d) => "parse: "@ + d@,
        WeatherError::NoResults => "no results"@,
    }
}

impl WeatherError {
    /// The human-readable message of the error.
    pub fn message(&self) -> (m: String)
        ensures
            m@ == error_message(*self),
    {
        let mut m = String::new();
        match self {
            WeatherError::Network(d) => {
                m.append("network: ");
                m.append(d.as_str());
            },
            WeatherError::Parse(d) => {
                m.append("parse: ");
                m.append(d.as_str());
            },
            WeatherError::NoResults => {
                m.append("no results");
            },
        }
        m
    }
}

/// Where an observer location came from.
#[derive(Debug, Clone, Copy, PartialEq, Eq, Structural)]
pub enum GeoSource {
    Ip,
    Search,
    Manual,
}

/// The two-letter language the geocoder is asked to answer in: Chinese for
/// any `zh*` locale, English otherwise.
pub fn search_language(language: &str) -> (lang: &'static str)
    ensures
        (language@.len() >= 2 && language@.subrange(0, 2) == "zh"@) ==> lang@ == "zh"@,
        !(language@.len() >= 2 && language@.subrange(0, 2) == "zh"@) ==> lang@ == "en"@,
{
    let zh = "zh";
    proof {
        reveal_strlit("zh");
    }
    if starts_with(language, zh) {
        "zh"
    } else {
        "en"
    }
}

/// The geocoding request for a place-name query.
pub open spec fn spec_search_url(query: Seq<char>, lang: Seq<char>) -> Seq<char> {
    "https://geocoding-api.open-meteo.com/v1/search?name="@ + encode_query(query) + "&count=6&language="@
        + lang + "&format=json"@
}

/// URL of the geocoding search for `query`, answered in the language that
/// `language` selects.
pub fn search_url(query: &str, language: &str) -> (url: String)
    ensures
        (language@.len() >= 2 && language@.subrange(0, 2) == "zh"@) ==> url@ == spec_search_url(query@, "zh"@),
        !(language@.len() >= 2 && language@.subrange(0, 2) == "zh"@) ==> url@ == spec_search_url(query@, "en"@),
{
    let q = urlencoding(query);
    let lang = search_language(language);
    let mut url = String::new();
    url.append("https://geocoding-api.open-meteo.com/v1/search?name=");
    url.append(q.as_str());
    url.append("&count=6&language=");
    url.append(lang);
    url.append("&format=json");
    url
}

/// A geocoder hit as the service returned it; only whether the coordinates
/// are present matters for choosing hits.
#[derive(Debug, Clone)]
pub struct RawPlace {
    pub name: Option<String>,
    pub admin1: Option<String>,
    pub country: Option<String>,
    pub has_latitude: bool,
    pub has_longitude: bool,
}

/// `Some` non-empty text.
pub open spec fn present(o: Option<String>) -> bool {
    o is Some && o.unwrap()@.len() > 0
}

/// The label parts of a hit: its name, its region unless it repeats the
/// name, its country; empty or missing parts are left out.
pub open spec fn place_parts(p: RawPlace) -> Seq<Seq<char>> {
    let a: Seq<Seq<char>> = if present(p.name) { seq![p.name.unwrap()@] } else { Seq::empty() };
    let b = if present(p.admin1) && !a.contains(p.admin1.unwrap()@) {
        a.push(p.admin1.unwrap()@)
    } else {
        a
    };
    if present(p.country) {
        b.push(p.country.unwrap()@)
    } else {
        b
    }
}

/// The display label of a hit.
pub open spec fn place_label(p: RawPlace) -> Seq<char> {
    join_with(place_parts(p), ", "@)
}

/// The hits that carry coordinates, in order, each with its index in the
/// reply and its label.
pub open spec fn chosen_places(rs: Seq<RawPlace>) -> Seq<(int, Seq<char>)>
    decreases rs.len(),
{
    if rs.len() == 0 {
        Seq::empty()
    } else {
        let before = chosen_places(rs.drop_last());
        let p = rs.last();
        if p.has_latitude && p.has_longitude {
            before.push(((rs.len() - 1) as int, place_label(p)))
        } else {
            before
        }
    }
}

/// A chosen geocoder hit: its index in the reply and its display label.
#[derive(Debug, Clone, PartialEq, Eq)]
pub struct PlaceHit {
    pub index: usize,
    pub label: String,
}

/// The views of chosen hits.
pub open spec fn hit_views(hits: Seq<PlaceHit>) -> Seq<(int, Seq<char>)> {
    hits.map_values(|h: PlaceHit| (h.index as int, h.label@))
}

fn push_present(parts: &mut Vec<String>, part: &Option<String>)
    ensures
        present(*part) ==> final(parts)@ == old(parts)@.push(part.unwrap()),
        !present(*part) ==> final(parts)@ == old(parts)@,
{
    if let Some(s) = part {
        if s.as_str().unicode_len() > 0 {
            parts.push(s.clone());
        }
    }
}

/// The label of one hit.
pub fn label_of(p: &RawPlace) -> (label: String)
    ensures
        label@ == place_label(*p),
{
    let mut parts: Vec<String> = Vec::new();
    push_present(&mut parts, &p.name);
    let ghost first: Seq<Seq<char>> = if present(p.name) { seq![p.name.unwrap()@] } else { Seq::empty() };
    assert(views(parts@) =~= first);
    if let Some(admin) = &p.admin1 {
        if admin.as_str().unicode_len() > 0 {
            let mut dup = false;
            let mut i: usize = 0;
            while i < parts.len()
                invariant
                    i <= parts.len(),
                    dup == exists|j: int| 0 <= j < i && parts@[j]@ == admin@,
                decreases parts.len() - i,
            {
                if parts[i] == *admin {
                    dup = true;
                }
                i = i + 1;
            }
            proof {
                if dup {
                    let j = choose|j: int| 0 <= j < parts.len() && parts@[j]@ == admin@;
                    assert(views(parts@)[j] == admin@);
                } else {
                    assert forall|j: int| 0 <= j < views(parts@).len() implies views(parts@)[j] != admin@ by {
                        assert(parts@[j]@ == views(parts@)[j]);
                    }
                    assert(!first.contains(admin@));
                }
            }
            if !dup {
                parts.push(admin.clone());
                assert(views(parts@) =~= first.push(admin@));
            } else {
                assert(first.contains(admin@));
            }
        }
    }
    let ghost mid = views(parts@);
    assert(mid == {
        let a: Seq<Seq<char>> = if present(p.name) { seq![p.name.unwrap()@] } else { Seq::empty() };
        if present(p.admin1) && !a.contains(p.admin1.unwrap()@) { a.push(p.admin1.unwrap()@) } else { a }
    });
    push_present(&mut parts, &p.country);
    assert(views(parts@) =~= (if present(p.country) { mid.push(p.country.unwrap()@) } else { mid }));
    join(&parts, ", ")
}

/// The hits of a geocoder reply that can be used: `NoResults` for an empty
/// reply, otherwise every hit with both coordinates, in order, labelled.
pub fn select_places(results: &Vec<RawPlace>) -> (chosen: Result<Vec<PlaceHit>, WeatherError>)
    ensures
        results@.len() == 0 <==> chosen is Err,
        chosen is Err ==> chosen == Err::<Vec<PlaceHit>, WeatherError>(WeatherError::NoResults),
        chosen matches Ok(hits) ==> hit_views(hits@) == chosen_places(results@),
{
    if results.len() == 0 {
        return Err(WeatherError::NoResults);
    }
    let mut hits: Vec<PlaceHit> = Vec::new();
    let mut i: usize = 0;
    while i < results.len()
        invariant
            i <= results.len(),
            hit_views(hits@) == chosen_places(results@.take(i as int)),
        decreases results.len() - i,
    {
        let ghost before = hits@;
        let p = &results[i];
        proof {
            assert(results@.take(i + 1).drop_last() =~= results@.take(i as int));
            assert(results@.take(i + 1).last() == results@[i as int]);
        }
        if p.has_latitude && p.has_longitude {
            let label = label_of(p);
            hits.push(PlaceHit { index: i, label });
            assert(hit_views(hits@) =~= hit_views(before).push((i as int, place_label(*p))));
        }
        i = i + 1;
    }
    assert(results@.take(results.len() as int) =~= results@);
    Ok(hits)
}

/// What the IP-location service answered, reduced to what decides the place.
#[derive(Debug, Clone)]
pub struct IpReply {
    pub success: Option<bool>,
    pub has_latitude: bool,
    pub has_longitude: bool,
    pub city: Option<String>,
    pub country: Option<String>,
}

/// The label of an IP location: city and country, whichever are non-empty,
/// joined by a comma.
pub open spec fn ip_label(r: IpReply) -> Seq<char> {
    let a: Seq<Seq<char>> = if present(r.city) { seq![r.city.unwrap()@] } else { Seq::empty() };
    let b = if present(r.country) { a.push(r.country.unwrap()@) } else { a };
    join_with(b, ", "@)
}

/// Checks an IP-location reply: `NoResults` when the service reports a
/// failure or a coordinate is missing; otherwise the label, or `None` when
/// neither city nor country is known (the caller then labels the place by
/// its coordinates).
pub fn ip_place_label(reply: &IpReply) -> (label: Result<Option<String>, WeatherError>)
    ensures
        (reply.success == Some(false) || !reply.has_latitude || !reply.has_longitude)
            <==> label is Err,
        label is Err ==> label == Err::<Option<String>, WeatherError>(WeatherError::NoResults),
        label matches Ok(l) ==> (l is None <==> ip_label(*reply).len() == 0),
        label matches Ok(Some(l)) ==> l@ == ip_label(*reply),
{
    if reply.success == Some(false) || !reply.has_latitude || !reply.has_longitude {
        return Err(WeatherError::NoResults);
    }
    let mut parts: Vec<String> = Vec::new();
    push_present(&mut parts, &reply.city);
    push_present(&mut parts, &reply.country);
    assert(views(parts@) =~= {
        let a: Seq<Seq<char>> = if present(reply.city) { seq![reply.city.unwrap()@] } else { Seq::empty() };
        if present(reply.country) { a.push(reply.country.unwrap()@) } else { a }
    });
    let label = join(&parts, ", ");
    proof {
        reveal_strlit(", ");
        let v = views(parts@);
        if v.len() == 2 {
            assert(join_with(v, ", "@) == join_with(v.drop_last(), ", "@) + ", "@ + v.last());
        }
    }
    if label.as_str().unicode_len() == 0 {
        Ok(None)
    } else {
        Ok(Some(label))
    }
}

/// The chosen hits keep the reply's order, point at hits that carry both
/// coordinates, and leave none of those out.
pub proof fn lemma_chosen_places_faithful(rs: Seq<RawPlace>)
    ensures
        forall|i: int, j: int| 0 <= i < j < chosen_places(rs).len() ==> chosen_places(rs)[i].0 < chosen_places(rs)[j].0,
        forall|i: int| 0 <= i < chosen_places(rs).len() ==> {
            let k = #[trigger] chosen_places(rs)[i].0;
            &&& 0 <= k < rs.len()
            &&& rs[k].has_latitude && rs[k].has_longitude
            &&& chosen_places(rs)[i].1 == place_label(rs[k])
        },
        forall|k: int| 0 <= k < rs.len() && rs[k].has_latitude && rs[k].has_longitude ==> exists|i: int|
            0 <= i < chosen_places(rs).len() && #[trigger] chosen_places(rs)[i].0 == k,
    decreases rs.len(),
{
    if rs.len() > 0 {
        let front = rs.drop_last();
        lemma_chosen_places_faithful(front);
        let before = chosen_places(front);
        let c = chosen_places(rs);
        assert forall|i: int| 0 <= i < c.len() implies {
            let k = #[trigger] c[i].0;
            &&& 0 <= k < rs.len()
            &&& rs[k].has_latitude && rs[k].has_longitude
            &&& c[i].1 == place_label(rs[k])
        } by {
            if i < before.len() {
                assert(c[i] == before[i]);
                assert(rs[before[i].0] == front[before[i].0]);
            }
        }
        assert forall|k: int| 0 <= k < rs.len() && rs[k].has_latitude && rs[k].has_longitude implies exists|i: int|
            0 <= i < c.len() && #[trigger] c[i].0 == k by {
            if k < rs.len() - 1 {
                assert(front[k] == rs[k]);
                let i = choose|i: int| 0 <= i < before.len() && #[trigger] before[i].0 == k;
                assert(c[i] == before[i]);
            } else {
                assert(c[c.len() - 1].0 == k);
            }
        }
        assert forall|i: int, j: int| 0 <= i < j < c.len() implies c[i].0 < c[j].0 by {
            if j < before.len() {
                assert(c[i] == before[i] && c[j] == before[j]);
            } else {
                assert(c[i] == before[i]);
            }
        }
    }
}

} // verus!
