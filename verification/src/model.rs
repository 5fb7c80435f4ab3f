//! The entities of a story project as stored in the graph. `attributes` holds
//! the free-form JSON attributes as JSON text.
use vstd::prelude::*;

verus! {

#[derive(Debug, Clone)]
pub struct Character {
    pub id: String,
    pub project_id: u64,
    pub name: String,
    pub description: Option<String>,
    pub attributes: Option<String>,
}

pub struct CharacterModel {
    pub id: Seq<char>,
    pub project_id: u64,
    pub name: Seq<char>,
    pub description: Option<Seq<char>>,
    pub attributes: Option<Seq<char>>,
}

impl View for Character {
    type V = CharacterModel;

    open spec fn view(&self) -> CharacterModel {
        CharacterModel {
            id: self.id@,
            project_id: self.project_id,
            name: self.name@,
            description: self.description.deep_view(),
            attributes: self.attributes.deep_view(),
        }
    }
}

#[derive(Debug, Clone)]
pub struct Connection {
    pub id: String,
    pub project_id: u64,
    pub from_id: String,
    pub to_id: String,
    pub relation_id: String,
    pub relation_type: String,
    pub attributes: Option<String>,
}

pub struct ConnectionModel {
    pub id: Seq<char>,
    pub project_id: u64,
    pub from_id: Seq<char>,
    pub to_id: Seq<char>,
    pub relation_id: Seq<char>,
    pub relation_type: Seq<char>,
    pub attributes: Option<Seq<char>>,
}

impl View for Connection {
    type V = ConnectionModel;

    open spec fn view(&self) -> ConnectionModel {
        ConnectionModel {
            id: self.id@,
            project_id: self.project_id,
            from_id: self.from_id@,
            to_id: self.to_id@,
            relation_id: self.relation_id@,
            relation_type: self.relation_type@,
            attributes: self.attributes.deep_view(),
        }
    }
}

#[derive(Debug, Clone)]
pub struct Event {
    pub id: String,
    pub project_id: u64,
    pub name: String,
    pub location: Option<String>,
    pub description: Option<String>,
    /// RFC 3339 date-time text.
    pub timestamp: Option<String>,
    pub attributes: Option<String>,
}

pub struct EventModel {
    pub id: Seq<char>,
    pub project_id: u64,
    pub name: Seq<char>,
    pub location: Option<Seq<char>>,
    pub description: Option<Seq<char>>,
    pub timestamp: Option<Seq<char>>,
    pub attributes: Option<Seq<char>>,
}

impl View for Event {
    type V = EventModel;

    open spec fn view(&self) -> EventModel {
        EventModel {
            id: self.id@,
            project_id: self.project_id,
            name: self.name@,
            location: self.location.deep_view(),
            description: self.description.deep_view(),
            timestamp: self.timestamp.deep_view(),
            attributes: self.attributes.deep_view(),
        }
    }
}

#[derive(Debug, Clone)]
pub struct Relation {
    pub id: String,
    pub project_id: u64,
    pub name: String,
    pub relation_type: String,
    pub description: Option<String>,
    pub attributes: Option<String>,
}

pub struct RelationModel {
    pub id: Seq<char>,
    pub project_id: u64,
    pub name: Seq<char>,
    pub relation_type: Seq<char>,
    pub description: Option<Seq<char>>,
    pub attributes: Option<Seq<char>>,
}

impl View for Relation {
    type V = RelationModel;

    open spec fn view(&self) -> RelationModel {
        RelationModel {
            id: self.id@,
            project_id: self.project_id,
            name: self.name@,
            relation_type: self.relation_type@,
            description: self.description.deep_view(),
            attributes: self.attributes.deep_view(),
        }
    }
}

} // verus!
