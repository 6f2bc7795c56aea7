//! Projects, which own artifacts.

use vstd::prelude::*;
use crate::helpers::text::{copy_opt_text, opt_text};
use crate::helpers::uuid::{generate_uuid, is_simple_uuid};

verus! {

/// A platform that a project ships for.
#[derive(Debug, Clone, Copy, PartialEq, Eq, Structural)]
pub enum Platforms {
    Android,
    Ios,
}

/// A project as stored.
#[derive(Debug)]
pub struct Project {
    pub id: String,
    pub name: String,
    pub description: String,
    pub owner: String,
    pub platforms: Vec<Platforms>,
    pub key: String,
    pub image: Option<String>,
}

/// What a project holds, as plain values.
pub struct ProjectView {
    pub id: Seq<char>,
    pub name: Seq<char>,
    pub description: Seq<char>,
    pub owner: Seq<char>,
    pub platforms: Seq<Platforms>,
    pub key: Seq<char>,
    pub image: Option<Seq<char>>,
}

impl View for Project {
    type V = ProjectView;

    open spec fn view(&self) -> ProjectView {
        ProjectView {
            id: self.id@,
            name: self.name@,
            description: self.description@,
            owner: self.owner@,
            platforms: self.platforms@,
            key: self.key@,
            image: opt_text(self.image),
        }
    }
}

/// The view of an optional project.
pub open spec fn opt_project(o: Option<Project>) -> Option<ProjectView> {
    match o {
        Some(p) => Some(p@),
        None => None,
    }
}

/// A copy of a list of platforms.
pub fn copy_platforms(list: &Vec<Platforms>) -> (r: Vec<Platforms>)
    ensures
        r@ == list@,
{
    let mut out: Vec<Platforms> = Vec::new();
    let mut i: usize = 0;
    while i < list.len()
        invariant
            i <= list.len(),
            out@ == list@.take(i as int),
        decreases list.len() - i,
    {
        out.push(list[i]);
        proof {
            assert(list@.take(i + 1) =~= list@.take(i as int).push(list@[i as int]));
        }
        i = i + 1;
    }
    proof {
        assert(list@.take(list.len() as int) =~= list@);
    }
    out
}

impl Clone for Project {
    fn clone(&self) -> (r: Self)
        ensures
            r@ == self@,
    {
        Project {
            id: self.id.clone(),
            name: self.name.clone(),
            description: self.description.clone(),
            owner: self.owner.clone(),
            platforms: copy_platforms(&self.platforms),
            key: self.key.clone(),
            image: copy_opt_text(&self.image),
        }
    }
}

/// A copy of an optional project.
pub fn copy_opt_project(o: &Option<Project>) -> (r: Option<Project>)
    ensures
        opt_project(r) == opt_project(*o),
{
    match o {
        Some(p) => Some(p.clone()),
        None => None,
    }
}

/// What a caller supplies to create or update a project.
#[derive(Debug)]
pub struct BaseProjectInput {
    pub name: String,
    pub description: String,
    pub platforms: Vec<Platforms>,
}

impl Project {
    /// A new project for `owner_id`: the supplied name, description and
    /// platforms, no image, and a fresh random id and key.
    pub fn new(new_project: BaseProjectInput, owner_id: String) -> (r: Project)
        ensures
            r@.name == new_project.name@,
            r@.description == new_project.description@,
            r@.platforms == new_project.platforms@,
            r@.owner == owner_id@,
            r@.image is None,
            is_simple_uuid(r@.id),
            is_simple_uuid(r@.key),
    {
        let key = generate_uuid(true);
        let id = generate_uuid(true);
        Project {
            id,
            key,
            name: new_project.name,
            description: new_project.description,
            owner: owner_id,
            platforms: new_project.platforms,
            image: None,
        }
    }
}

} // verus!
