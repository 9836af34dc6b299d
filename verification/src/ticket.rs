//! Tickets and the requests they are made from.

use vstd::prelude::*;
use vstd::string::StringExecFns;
use uuid::Uuid;
use crate::clock::{now, Timestamp};
use crate::ids::new_id;
use crate::single::Single;
use crate::text::{join_with_space, spaced};

verus! {

/// Where a ticket stands in its life: new, then being processed, then
/// resolved, then closed.
#[derive(Debug, Clone, Copy, PartialEq, Eq, Structural)]
pub enum TicketStatus {
    New,
    Processing,
    Resolved,
    Closed,
}

impl TicketStatus {
    /// The place of the status in the life of a ticket, from zero.
    pub open spec fn position(self) -> nat {
        match self {
            TicketStatus::New => 0,
            TicketStatus::Processing => 1,
            TicketStatus::Resolved => 2,
            TicketStatus::Closed => 3,
        }
    }

    /// Whether a ticket in this status moves forward, or stays, when it is
    /// put into `next`. Reopening a ticket is a move backward.
    pub fn leads_to(self, next: TicketStatus) -> (forward: bool)
        ensures
            forward == (self.position() <= next.position()),
    {
        match self {
            TicketStatus::New => true,
            TicketStatus::Processing => !matches!(next, TicketStatus::New),
            TicketStatus::Resolved => matches!(next, TicketStatus::Resolved | TicketStatus::Closed),
            TicketStatus::Closed => matches!(next, TicketStatus::Closed),
        }
    }
}

/// What a caller hands in to open a ticket.
#[derive(Debug, Clone)]
pub struct NewTicket {
    pub title: String,
    pub description: String,
    pub category: String,
    pub priority: i32,
    pub tags: Vec<String>,
}

/// A support ticket.
#[derive(Debug, Clone)]
pub struct Ticket {
    pub id: Uuid,
    pub title: String,
    pub description: String,
    pub category: String,
    pub priority: i32,
    pub status: TicketStatus,
    pub created_at: Timestamp,
    pub updated_at: Timestamp,
    pub embedding: Option<Vec<Single>>,
    pub tags: Vec<String>,
}

/// The texts of `parts` with one space between neighbours.
pub open spec fn space_joined(parts: Seq<String>) -> Seq<char>
    decreases parts.len(),
{
    if parts.len() == 0 {
        Seq::empty()
    } else if parts.len() == 1 {
        parts[0]@
    } else {
        spaced(space_joined(parts.drop_last()), parts.last()@)
    }
}

/// `parts` with one space between neighbours.
pub fn join_tags(parts: &Vec<String>) -> (joined: String)
    ensures
        joined@ == space_joined(parts@),
{
    let mut joined = String::new();
    let mut i: usize = 0;
    while i < parts.len()
        invariant
            0 <= i <= parts.len(),
            joined@ == space_joined(parts@.subrange(0, i as int)),
        decreases parts.len() - i,
    {
        let ghost before = parts@.subrange(0, i as int);
        let ghost after = parts@.subrange(0, i + 1);
        assert(after.drop_last() == before);
        assert(after.last() == parts@[i as int]);
        if i == 0 {
            joined.append(parts[i].as_str());
            assert(joined@ == parts@[0]@);
        } else {
            joined = join_with_space(joined.as_str(), parts[i].as_str());
        }
        i = i + 1;
    }
    assert(parts@.subrange(0, parts.len() as int) == parts@);
    joined
}

impl Ticket {
    /// The ticket opened by `request` under the identifier `id` at the
    /// moment `opened`: what the request says is kept as it is, the ticket is
    /// new, and no embedding is known yet.
    pub fn from_request(request: NewTicket, id: Uuid, opened: Timestamp) -> (ticket: Ticket)
        ensures
            ticket == (Ticket {
                id,
                title: request.title,
                description: request.description,
                category: request.category,
                priority: request.priority,
                status: TicketStatus::New,
                created_at: opened,
                updated_at: opened,
                embedding: None,
                tags: request.tags,
            }),
    {
        Ticket {
            id,
            title: request.title,
            description: request.description,
            category: request.category,
            priority: request.priority,
            status: TicketStatus::New,
            created_at: opened,
            updated_at: opened,
            embedding: None,
            tags: request.tags,
        }
    }

    /// Opens a ticket for `request`, with a fresh identifier, at the present
    /// moment.
    pub fn new(request: NewTicket) -> (ticket: Ticket)
        ensures
            ticket.title == request.title,
            ticket.description == request.description,
            ticket.category == request.category,
            ticket.priority == request.priority,
            ticket.tags == request.tags,
            ticket.status == TicketStatus::New,
            ticket.embedding is None,
            ticket.created_at == ticket.updated_at,
    {
        let opened = now();
        Ticket::from_request(request, new_id(), opened)
    }

    /// Title, description and the tags, with one space between each.
    pub fn get_full_text(&self) -> (full: String)
        ensures
            full@ == spaced(spaced(self.title@, self.description@), space_joined(self.tags@)),
    {
        let head = join_with_space(self.title.as_str(), self.description.as_str());
        let tags = join_tags(&self.tags);
        join_with_space(head.as_str(), tags.as_str())
    }

    /// Moves the ticket to `status` and records `at` as the moment of the
    /// change.
    pub fn update_status_at(&mut self, status: TicketStatus, at: Timestamp)
        ensures
            *final(self) == (Ticket { status, updated_at: at, ..*old(self) }),
    {
        self.status = status;
        self.updated_at = at;
    }

    /// Moves the ticket to `status` and records the present moment as the
    /// moment of the change.
    pub fn update_status(&mut self, status: TicketStatus)
        ensures
            *final(self) == (Ticket { updated_at: final(self).updated_at, status, ..*old(self) }),
    {
        let at = now();
        self.update_status_at(status, at);
    }

    /// Stores `embedding` and records `at` as the moment of the change.
    pub fn set_embedding_at(&mut self, embedding: Vec<Single>, at: Timestamp)
        ensures
            *final(self) == (Ticket { embedding: Some(embedding), updated_at: at, ..*old(self) }),
    {
        self.embedding = Some(embedding);
        self.updated_at = at;
    }

    /// Stores `embedding` and records the present moment as the moment of
    /// the change.
    pub fn set_embedding(&mut self, embedding: Vec<Single>)
        ensures
            *final(self) == (Ticket {
                updated_at: final(self).updated_at,
                embedding: Some(embedding),
                ..*old(self)
            }),
    {
        let at = now();
        self.set_embedding_at(embedding, at);
    }
}

} // verus!
