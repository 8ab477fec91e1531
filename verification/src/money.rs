//! Fees, and the transactions that charge them to members.

use crate::error::GreaseError;
use crate::member::MemberForSemester;
use crate::text::{concat3, owned, str_eq};
use vstd::prelude::*;

verus! {

/// A fee the club charges its members.
#[derive(Debug)]
pub struct Fee {
    /// The short name of the fee.
    pub name: String,
    /// What the fee is for.
    pub description: String,
    /// How much it charges.
    pub amount: i32,
}

/// A charge or payment on a member's account.
#[derive(Debug)]
pub struct Transaction {
    /// The ID of the transaction.
    pub id: i32,
    /// The email of the member.
    pub member: String,
    /// When it was made (seconds since the epoch).
    pub time: i64,
    /// The amount.
    pub amount: i32,
    /// What it is for.
    pub description: String,
    /// The semester it belongs to.
    pub semester: Option<String>,
    /// The kind of transaction.
    pub type_: String,
    /// Whether it is settled.
    pub resolved: bool,
}

/// A transaction to store.
#[derive(Debug)]
pub struct NewTransaction {
    /// The email of the member.
    pub member: String,
    /// The amount.
    pub amount: i32,
    /// What it is for.
    pub description: String,
    /// The semester it belongs to.
    pub semester: Option<String>,
    /// The kind of transaction.
    pub type_: String,
    /// Whether it is settled.
    pub resolved: bool,
}

/// The kind of transaction a fee named `name` charges: dues for either
/// kind of dues, else the kind of transaction named like the fee if there
/// is one (`found_type`), else "Other".
pub open spec fn spec_fee_transaction_type(name: Seq<char>, found_type: Option<String>) -> Seq<char> {
    if name == "dues"@ || name == "latedues"@ {
        "Dues"@
    } else {
        match found_type {
            Some(t) => t@,
            None => "Other"@,
        }
    }
}

/// The message for charging a fee twice in a semester.
pub open spec fn already_charged_message(name: Seq<char>) -> Seq<char> {
    "Fee of type "@ + name + " has already been charged for the current semester"@
}

/// Whether `charge` is the charge of `fee` to `member` in `semester` as a
/// transaction of kind `kind`.
pub open spec fn is_fee_charge(charge: NewTransaction, fee: Fee, member: Seq<char>, semester: Seq<char>, kind: Seq<char>) -> bool {
    &&& charge.member@ == member
    &&& charge.amount == fee.amount
    &&& charge.description == fee.description
    &&& charge.semester matches Some(s) && s@ == semester
    &&& charge.type_@ == kind
    &&& charge.resolved
}

impl Fee {
    /// The kind of transaction this fee charges, given the kind of
    /// transaction named like the fee, if there is one.
    pub fn transaction_type(&self, found_type: Option<String>) -> (kind: String)
        ensures
            kind@ == spec_fee_transaction_type(self.name@, found_type),
    {
        if str_eq(self.name.as_str(), "dues") || str_eq(self.name.as_str(), "latedues") {
            return owned("Dues");
        }
        match found_type {
            Some(t) => t,
            None => owned("Other"),
        }
    }

    /// The transactions that charge this fee to every member of the
    /// current semester (`semester_members`, of the semester named
    /// `current_semester`), as transactions of kind `kind`; refused when
    /// a transaction of that kind was already made this semester
    /// (`charged_this_semester`).
    pub fn charge_for_the_semester(
        &self,
        kind: &String,
        charged_this_semester: &Vec<Transaction>,
        semester_members: &Vec<MemberForSemester>,
        current_semester: &String,
    ) -> (result: Result<Vec<NewTransaction>, GreaseError>)
        ensures
            charged_this_semester@.len() > 0 ==> (result matches Err(GreaseError::BadRequest(m)) && m@
                == already_charged_message(self.name@)),
            charged_this_semester@.len() == 0 ==> (result matches Ok(charges) && charges@.len()
                == semester_members@.len() && forall|i: int|
                0 <= i < charges@.len() ==> is_fee_charge(
                    #[trigger] charges@[i],
                    *self,
                    semester_members@[i].member.email@,
                    current_semester@,
                    kind@,
                )),
    {
        if charged_this_semester.len() > 0 {
            return Err(
                GreaseError::BadRequest(
                    concat3("Fee of type ", self.name.as_str(), " has already been charged for the current semester"),
                ),
            );
        }
        let mut charges: Vec<NewTransaction> = Vec::new();
        let mut i: usize = 0;
        while i < semester_members.len()
            invariant
                0 <= i <= semester_members@.len(),
                charges@.len() == i,
                forall|q: int|
                    0 <= q < i ==> is_fee_charge(
                        #[trigger] charges@[q],
                        *self,
                        semester_members@[q].member.email@,
                        current_semester@,
                        kind@,
                    ),
            decreases semester_members@.len() - i,
        {
            charges.push(
                NewTransaction {
                    member: semester_members[i].member.email.clone(),
                    amount: self.amount,
                    description: self.description.clone(),
                    semester: Some(current_semester.clone()),
                    type_: kind.clone(),
                    resolved: true,
                },
            );
            i += 1;
        }
        Ok(charges)
    }
}

} // verus!
