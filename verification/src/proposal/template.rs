//! Proposal templates for standardized proposal creation.

use core::marker::PhantomData;

use vstd::prelude::*;

use crate::error::FsmError;
use crate::text::byte_len;

verus! {

/// Template field type.
#[derive(Clone, Debug, PartialEq, Eq, Structural)]
pub enum TemplateFieldType {
    Text,
    Number,
    Date,
    /// For dropdown/choice fields (choices stored separately if needed).
    Choice,
}

/// Template field definition, generic over the key type the surrounding
/// template uses.
#[derive(Debug, Clone, PartialEq, Eq)]
pub struct TemplateField<P> {
    pub name: String,
    pub description: String,
    pub field_type: TemplateFieldType,
    pub required: bool,
    pub _phantom: PhantomData<P>,
}

/// Proposal template account structure, generic over the key type that
/// identifies its creator.
#[derive(Debug, Clone, PartialEq, Eq)]
pub struct ProposalTemplate<P> {
    pub template_id: u64,
    pub name: String,
    pub description: String,
    pub proposal_type: String,
    /// At most 20 fields.
    pub fields: Vec<TemplateField<P>>,
    pub created_by: P,
    pub created_at: i64,
    pub updated_at: Option<i64>,
    pub is_active: bool,
}

/// A single template field is acceptable when its name is non-empty and at
/// most 50 bytes and its description at most 200 bytes.
pub open spec fn template_field_ok<P>(field: TemplateField<P>) -> bool {
    field.name@.len() > 0 && byte_len(field.name@) <= 50 && byte_len(field.description@) <= 200
}

/// A field list is acceptable when it has at most 20 fields, each of them
/// acceptable.
pub open spec fn template_fields_ok<P>(fields: Seq<TemplateField<P>>) -> bool {
    fields.len() <= 20 && forall|i: int| 0 <= i < fields.len() ==> template_field_ok(fields[i])
}

/// The naming texts of a template are acceptable when the name is 1-100
/// bytes, the description 1-500 bytes, and the proposal type 1-50 bytes.
pub open spec fn template_texts_ok(
    name: Seq<char>,
    description: Seq<char>,
    proposal_type: Seq<char>,
) -> bool {
    name.len() > 0 && byte_len(name) <= 100 && description.len() > 0 && byte_len(description)
        <= 500 && proposal_type.len() > 0 && byte_len(proposal_type) <= 50
}

/// The value of an optional update argument: the requested value where one
/// is given, else the current one.
pub open spec fn updated_text(requested: Option<String>, current: Seq<char>) -> Seq<char> {
    match requested {
        Option::None => current,
        Option::Some(s) => s@,
    }
}

/// Whether an optional name update is acceptable: 1-100 bytes when given.
pub open spec fn name_update_ok(requested: Option<String>) -> bool {
    match requested {
        Option::None => true,
        Option::Some(n) => n@.len() > 0 && byte_len(n@) <= 100,
    }
}

/// Whether an optional description update is acceptable: 1-500 bytes when
/// given.
pub open spec fn description_update_ok(requested: Option<String>) -> bool {
    match requested {
        Option::None => true,
        Option::Some(d) => d@.len() > 0 && byte_len(d@) <= 500,
    }
}

/// Whether an optional field-list update is acceptable.
pub open spec fn fields_update_ok<P>(requested: Option<Vec<TemplateField<P>>>) -> bool {
    match requested {
        Option::None => true,
        Option::Some(fs) => template_fields_ok(fs@),
    }
}

/// The field list after an optional update.
pub open spec fn updated_fields<P>(
    requested: Option<Vec<TemplateField<P>>>,
    current: Seq<TemplateField<P>>,
) -> Seq<TemplateField<P>> {
    match requested {
        Option::None => current,
        Option::Some(fs) => fs@,
    }
}

impl<P> ProposalTemplate<P> {
    /// Create a new proposal template, stamped with time zero.
    pub fn new(
        template_id: u64,
        name: String,
        description: String,
        proposal_type: String,
        fields: Vec<TemplateField<P>>,
        created_by: P,
    ) -> (r: Result<Self, FsmError>)
        ensures
            (template_texts_ok(name@, description@, proposal_type@) && template_fields_ok(fields@))
                ==> (r matches Ok(t) && t.template_id == template_id && t.name == name
                && t.description == description && t.proposal_type == proposal_type && t.fields@
                == fields@ && t.created_by == created_by && t.created_at == 0 && t.updated_at
                is None && t.is_active == true),
            !(template_texts_ok(name@, description@, proposal_type@) && template_fields_ok(
                fields@,
            )) ==> r == Err::<ProposalTemplate<P>, FsmError>(FsmError::InvalidInput),
    {
        Self::new_with_time(template_id, name, description, proposal_type, fields, created_by, 0)
    }

    /// Create a new proposal template with the given creation time. The
    /// texts and every field must satisfy their length bounds and the
    /// field list may hold at most 20 fields; a new template starts out
    /// active.
    pub fn new_with_time(
        template_id: u64,
        name: String,
        description: String,
        proposal_type: String,
        fields: Vec<TemplateField<P>>,
        created_by: P,
        current_time: i64,
    ) -> (r: Result<Self, FsmError>)
        ensures
            (template_texts_ok(name@, description@, proposal_type@) && template_fields_ok(fields@))
                ==> (r matches Ok(t) && t.template_id == template_id && t.name == name
                && t.description == description && t.proposal_type == proposal_type && t.fields@
                == fields@ && t.created_by == created_by && t.created_at == current_time
                && t.updated_at is None && t.is_active == true),
            !(template_texts_ok(name@, description@, proposal_type@) && template_fields_ok(
                fields@,
            )) ==> r == Err::<ProposalTemplate<P>, FsmError>(FsmError::InvalidInput),
    {
        if name.as_str().is_empty() {
            return Err(FsmError::InvalidInput);
        }
        if name.as_str().as_bytes().len() > 100 {
            return Err(FsmError::InvalidInput);
        }
        if description.as_str().is_empty() {
            return Err(FsmError::InvalidInput);
        }
        if description.as_str().as_bytes().len() > 500 {
            return Err(FsmError::InvalidInput);
        }
        if proposal_type.as_str().is_empty() {
            return Err(FsmError::InvalidInput);
        }
        if proposal_type.as_str().as_bytes().len() > 50 {
            return Err(FsmError::InvalidInput);
        }
        if fields.len() > 20 {
            return Err(FsmError::InvalidInput);
        }
        if !check_fields(&fields) {
            return Err(FsmError::InvalidInput);
        }
        Ok(
            Self {
                template_id,
                name,
                description,
                proposal_type,
                fields,
                created_by,
                created_at: current_time,
                updated_at: None,
                is_active: true,
            },
        )
    }

    /// Update the template's name, description or fields, stamping the
    /// update with time zero.
    pub fn update(
        &mut self,
        name: Option<String>,
        description: Option<String>,
        fields: Option<Vec<TemplateField<P>>>,
    ) -> (r: Result<(), FsmError>)
        ensures
            (name_update_ok(name) && description_update_ok(description) && fields_update_ok(
                fields,
            )) ==> (r is Ok && final(self).name@ == updated_text(name, old(self).name@) && final(self).description@ == updated_text(description, old(self).description@) && final(self).fields@ == updated_fields(fields, old(self).fields@) && final(self).updated_at
                == Some(0i64) && final(self).template_id == old(self).template_id && final(self).proposal_type == old(self).proposal_type && final(self).created_by == old(self).created_by && final(self).created_at == old(self).created_at && final(self).is_active
                == old(self).is_active),
            !name_update_ok(name) ==> (r == Err::<(), FsmError>(FsmError::InvalidInput) && *final(self) == *old(self)),
            (name_update_ok(name) && !description_update_ok(description)) ==> (r == Err::<
                (),
                FsmError,
            >(FsmError::InvalidInput) && final(self).name@ == updated_text(name, old(self).name@)
                && final(self).description == old(self).description && final(self).fields@ == old(self).fields@ && final(self).updated_at == old(self).updated_at && final(self).template_id
                == old(self).template_id && final(self).proposal_type == old(self).proposal_type
                && final(self).created_by == old(self).created_by && final(self).created_at == old(self).created_at && final(self).is_active == old(self).is_active),
            (name_update_ok(name) && description_update_ok(description) && !fields_update_ok(
                fields,
            )) ==> (r == Err::<(), FsmError>(FsmError::InvalidInput) && final(self).name@
                == updated_text(name, old(self).name@) && final(self).description@ == updated_text(
                description,
                old(self).description@,
            ) && final(self).fields@ == old(self).fields@ && final(self).updated_at == old(self).updated_at && final(self).template_id == old(self).template_id && final(self).proposal_type == old(self).proposal_type && final(self).created_by == old(self).created_by && final(self).created_at == old(self).created_at && final(self).is_active
                == old(self).is_active),
    {
        self.update_with_time(name, description, fields, 0)
    }

    /// Update the template's name, description or fields. Each given
    /// argument is validated and applied in turn: a rejected name leaves
    /// everything unchanged, while a rejected description or field list
    /// leaves the arguments validated before it already applied. Only a
    /// fully successful update stamps `updated_at`.
    pub fn update_with_time(
        &mut self,
        name: Option<String>,
        description: Option<String>,
        fields: Option<Vec<TemplateField<P>>>,
        current_time: i64,
    ) -> (r: Result<(), FsmError>)
        ensures
            (name_update_ok(name) && description_update_ok(description) && fields_update_ok(
                fields,
            )) ==> (r is Ok && final(self).name@ == updated_text(name, old(self).name@) && final(self).description@ == updated_text(description, old(self).description@) && final(self).fields@ == updated_fields(fields, old(self).fields@) && final(self).updated_at
                == Some(current_time) && final(self).template_id == old(self).template_id && final(self).proposal_type == old(self).proposal_type && final(self).created_by == old(self).created_by && final(self).created_at == old(self).created_at && final(self).is_active
                == old(self).is_active),
            !name_update_ok(name) ==> (r == Err::<(), FsmError>(FsmError::InvalidInput) && *final(self) == *old(self)),
            (name_update_ok(name) && !description_update_ok(description)) ==> (r == Err::<
                (),
                FsmError,
            >(FsmError::InvalidInput) && final(self).name@ == updated_text(name, old(self).name@)
                && final(self).description == old(self).description && final(self).fields@ == old(self).fields@ && final(self).updated_at == old(self).updated_at && final(self).template_id
                == old(self).template_id && final(self).proposal_type == old(self).proposal_type
                && final(self).created_by == old(self).created_by && final(self).created_at == old(self).created_at && final(self).is_active == old(self).is_active),
            (name_update_ok(name) && description_update_ok(description) && !fields_update_ok(
                fields,
            )) ==> (r == Err::<(), FsmError>(FsmError::InvalidInput) && final(self).name@
                == updated_text(name, old(self).name@) && final(self).description@ == updated_text(
                description,
                old(self).description@,
            ) && final(self).fields@ == old(self).fields@ && final(self).updated_at == old(self).updated_at && final(self).template_id == old(self).template_id && final(self).proposal_type == old(self).proposal_type && final(self).created_by == old(self).created_by && final(self).created_at == old(self).created_at && final(self).is_active
                == old(self).is_active),
    {
        if let Some(new_name) = name {
            if new_name.as_str().is_empty() {
                return Err(FsmError::InvalidInput);
            }
            if new_name.as_str().as_bytes().len() > 100 {
                return Err(FsmError::InvalidInput);
            }
            self.name = new_name;
        }
        if let Some(new_description) = description {
            if new_description.as_str().is_empty() {
                return Err(FsmError::InvalidInput);
            }
            if new_description.as_str().as_bytes().len() > 500 {
                return Err(FsmError::InvalidInput);
            }
            self.description = new_description;
        }
        if let Some(new_fields) = fields {
            if new_fields.len() > 20 {
                return Err(FsmError::InvalidInput);
            }
            if !check_fields(&new_fields) {
                return Err(FsmError::InvalidInput);
            }
            self.fields = new_fields;
        }
        self.updated_at = Some(current_time);
        Ok(())
    }

    /// Deactivate an active template, stamping the change with time zero.
    pub fn deactivate(&mut self) -> (r: Result<(), FsmError>)
        ensures
            old(self).is_active ==> (r is Ok && *final(self) == (ProposalTemplate {
                is_active: false,
                updated_at: Some(0i64),
                ..*old(self)
            })),
            !old(self).is_active ==> (r == Err::<(), FsmError>(FsmError::InvalidState) && *final(self) == *old(self)),
    {
        self.deactivate_with_time(0)
    }

    /// Deactivate an active template.
    pub fn deactivate_with_time(&mut self, current_time: i64) -> (r: Result<(), FsmError>)
        ensures
            old(self).is_active ==> (r is Ok && *final(self) == (ProposalTemplate {
                is_active: false,
                updated_at: Some(current_time),
                ..*old(self)
            })),
            !old(self).is_active ==> (r == Err::<(), FsmError>(FsmError::InvalidState) && *final(self) == *old(self)),
    {
        if !self.is_active {
            return Err(FsmError::InvalidState);
        }
        self.is_active = false;
        self.updated_at = Some(current_time);
        Ok(())
    }

    /// Reactivate an inactive template, stamping the change with time zero.
    pub fn activate(&mut self) -> (r: Result<(), FsmError>)
        ensures
            !old(self).is_active ==> (r is Ok && *final(self) == (ProposalTemplate {
                is_active: true,
                updated_at: Some(0i64),
                ..*old(self)
            })),
            old(self).is_active ==> (r == Err::<(), FsmError>(FsmError::InvalidState) && *final(self) == *old(self)),
    {
        self.activate_with_time(0)
    }

    /// Reactivate an inactive template.
    pub fn activate_with_time(&mut self, current_time: i64) -> (r: Result<(), FsmError>)
        ensures
            !old(self).is_active ==> (r is Ok && *final(self) == (ProposalTemplate {
                is_active: true,
                updated_at: Some(current_time),
                ..*old(self)
            })),
            old(self).is_active ==> (r == Err::<(), FsmError>(FsmError::InvalidState) && *final(self) == *old(self)),
    {
        if self.is_active {
            return Err(FsmError::InvalidState);
        }
        self.is_active = true;
        self.updated_at = Some(current_time);
        Ok(())
    }
}

/// Check every field of a candidate field list against its length bounds.
fn check_fields<P>(fields: &Vec<TemplateField<P>>) -> (r: bool)
    ensures
        r == (forall|i: int| 0 <= i < fields@.len() ==> template_field_ok(fields@[i])),
{
    let mut i: usize = 0;
    while i < fields.len()
        invariant
            i <= fields@.len(),
            forall|j: int| 0 <= j < i ==> template_field_ok(fields@[j]),
        decreases fields@.len() - i,
    {
        let field = &fields[i];
        if field.name.as_str().is_empty() {
            return false;
        }
        if field.name.as_str().as_bytes().len() > 50 {
            return false;
        }
        if field.description.as_str().as_bytes().len() > 200 {
            return false;
        }
        i = i + 1;
    }
    true
}

} // verus!
