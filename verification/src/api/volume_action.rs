//! Volumes and the operations on them.

use vstd::prelude::*;
use crate::api::{Action, Volume};
use crate::method::{Create, Get, List};
use crate::payload::{kind_member, number_member, text_member, Payload};
use crate::request::{Request, RequestView};
use crate::text::{
    decimal, decimal_text, is_segment, is_segment_text, lemma_decimal_is_segment,
    lemma_path_text_is_ascii, root_text, root_url, with_segment,
};

verus! {

/// The longest volume identifier, in characters, that `Volume::get` takes.
pub const VOLUME_ID_LIMIT: usize = 0xffff;

/// The path segment of the volume collection.
pub open spec fn volumes_segment() -> Seq<char> {
    "volumes"@
}

/// The path segment of a volume's actions.
pub open spec fn actions_segment() -> Seq<char> {
    "actions"@
}

proof fn lemma_static_segments()
    ensures
        is_segment(volumes_segment()),
        is_segment(actions_segment()),
        volumes_segment().len() == 7,
        actions_segment().len() == 7,
        root_text().len() == 31,
{
    reveal_strlit("volumes");
    reveal_strlit("actions");
    reveal_strlit("https://api.digitalocean.com/v2");
}

fn volumes_root<A, V>() -> (r: Request<A, V>)
    ensures
        r@ == (RequestView { url: with_segment(root_text(), volumes_segment()), body: None }),
        r.wf(),
{
    proof {
        lemma_static_segments();
    }
    let mut r: Request<A, V> = Request::new(root_url());
    r.push("volumes");
    r
}

impl Volume {
    /// Asks for the volume `id`. Identifiers are path segments of at most
    /// `VOLUME_ID_LIMIT` characters; for anything else there is no request.
    pub fn get(id: &str) -> (r: Option<Request<Get, Volume>>)
        ensures
            r.is_some() == (is_segment(id@) && id@.len() <= VOLUME_ID_LIMIT),
            r matches Some(q) ==> q.wf() && q@ == (RequestView {
                url: with_segment(with_segment(root_text(), volumes_segment()), id@),
                body: None,
            }) && q@.url.len() == 40 + id@.len(),
    {
        if !is_segment_text(id) {
            return None;
        }
        proof {
            lemma_static_segments();
            lemma_path_text_is_ascii(id@);
        }
        if id.as_bytes().len() > VOLUME_ID_LIMIT {
            return None;
        }
        let mut r: Request<Get, Volume> = volumes_root();
        r.push(id);
        Some(r)
    }

    /// Attaches the volume named `volume_name` to `droplet`.
    pub fn attach(volume_name: &str, droplet: usize) -> (r: Request<Create, Action>)
        ensures
            r.wf(),
            r@.url == with_segment(root_text(), volumes_segment()),
            r@.body == Some(
                seq![
                    kind_member("attach"@),
                    text_member("volume_name"@, volume_name@),
                    number_member("droplet_id"@, droplet),
                ],
            ),
    {
        let mut r: Request<Create, Action> = volumes_root();
        r.set_body(
            Payload::of_kind("attach").text("volume_name", volume_name).number(
                "droplet_id",
                droplet,
            ),
        );
        r
    }

    /// Detaches the volume named `volume_name` from `droplet`.
    pub fn detach(volume_name: &str, droplet: usize) -> (r: Request<Create, Action>)
        ensures
            r.wf(),
            r@.url == with_segment(root_text(), volumes_segment()),
            r@.body == Some(
                seq![
                    kind_member("detach"@),
                    text_member("volume_name"@, volume_name@),
                    number_member("droplet_id"@, droplet),
                ],
            ),
    {
        let mut r: Request<Create, Action> = volumes_root();
        r.set_body(
            Payload::of_kind("detach").text("volume_name", volume_name).number(
                "droplet_id",
                droplet,
            ),
        );
        r
    }
}

impl Request<Get, Volume> {
    /// Attaches the volume to `droplet`.
    pub fn attach(self, droplet: usize) -> (r: Request<Create, Action>)
        requires
            self.wf(),
            self.has_room(8),
        ensures
            r.wf(),
            r@.url == with_segment(self@.url, actions_segment()),
            r@.body == Some(seq![kind_member("attach"@), number_member("droplet_id"@, droplet)]),
    {
        proof {
            lemma_static_segments();
        }
        let mut request = self;
        request.push("actions");
        request.set_body(Payload::of_kind("attach").number("droplet_id", droplet));
        request.transmute()
    }

    /// Detaches the volume from `droplet`.
    pub fn detach(self, droplet: usize) -> (r: Request<Create, Action>)
        requires
            self.wf(),
            self.has_room(8),
        ensures
            r.wf(),
            r@.url == with_segment(self@.url, actions_segment()),
            r@.body == Some(seq![kind_member("detach"@), number_member("droplet_id"@, droplet)]),
    {
        proof {
            lemma_static_segments();
        }
        let mut request = self;
        request.push("actions");
        request.set_body(Payload::of_kind("detach").number("droplet_id", droplet));
        request.transmute()
    }

    /// Resizes the volume to `size` gigabytes.
    pub fn resize(self, size: usize) -> (r: Request<Create, Action>)
        requires
            self.wf(),
            self.has_room(8),
        ensures
            r.wf(),
            r@.url == with_segment(self@.url, actions_segment()),
            r@.body == Some(seq![kind_member("resize"@), number_member("size_gigabytes"@, size)]),
    {
        proof {
            lemma_static_segments();
        }
        let mut request = self;
        request.push("actions");
        request.set_body(Payload::of_kind("resize").number("size_gigabytes", size));
        request.transmute()
    }

    /// Lists the actions taken on the volume.
    pub fn actions(self) -> (r: Request<List, Vec<Action>>)
        requires
            self.wf(),
            self.has_room(8),
        ensures
            r.wf(),
            r@ == self@.with_segment(actions_segment()),
    {
        proof {
            lemma_static_segments();
        }
        let mut request = self;
        request.push("actions");
        request.transmute()
    }

    /// Asks for the action `id` taken on the volume.
    pub fn action(self, id: usize) -> (r: Request<Get, Action>)
        requires
            self.wf(),
            self.has_room(8 + 1 + decimal(id as nat).len()),
        ensures
            r.wf(),
            r@ == self@.with_segment(actions_segment()).with_segment(decimal(id as nat)),
    {
        proof {
            lemma_static_segments();
            lemma_decimal_is_segment(id as nat);
        }
        let mut request = self;
        request.push("actions");
        let numeral = decimal_text(id);
        request.push(numeral.as_str());
        request.transmute()
    }
}

} // verus!
