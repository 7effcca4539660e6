//! The workflow rules of a repository, as its configuration file lists them.

use vstd::prelude::*;

verus! {

/// A pair of wildcard patterns: one for the branch that is merged, one for
/// the branch that it is merged into.
#[derive(Debug)]
pub struct Merge {
    pub from: String,
    pub to: String,
}

/// A rule: the merges it applies to, the comment it posts, and the tasks it
/// attaches to that comment, in order.
#[derive(Debug)]
pub struct Workflow {
    pub merge: Vec<Merge>,
    pub comment: String,
    pub tasks: Vec<String>,
}

/// All rules of a repository, in the order of the file. The first rule that
/// applies is the one that is run.
#[derive(Debug)]
pub struct WorkflowConfig {
    pub workflow: Vec<Workflow>,
}

/// What a [`Merge`] says: two patterns as sequences of characters.
pub ghost struct MergeModel {
    pub from: Seq<char>,
    pub to: Seq<char>,
}

/// What a [`Workflow`] says.
pub ghost struct WorkflowModel {
    pub merge: Seq<MergeModel>,
    pub comment: Seq<char>,
    pub tasks: Seq<Seq<char>>,
}

/// The texts of a list of strings.
pub open spec fn texts_of(list: Seq<String>) -> Seq<Seq<char>> {
    Seq::new(list.len(), |i: int| list[i]@)
}

/// A copy of a list of strings.
pub fn clone_texts(list: &Vec<String>) -> (r: Vec<String>)
    ensures
        texts_of(r@) == texts_of(list@),
{
    let mut copy: Vec<String> = Vec::new();
    let mut i: usize = 0;
    while i < list.len()
        invariant
            i <= list@.len(),
            copy@.len() == i,
            forall|k: int| 0 <= k < i ==> copy@[k]@ == list@[k]@,
        decreases list@.len() - i,
    {
        copy.push(list[i].clone());
        i = i + 1;
    }
    assert(texts_of(copy@) =~= texts_of(list@));
    copy
}

impl View for Merge {
    type V = MergeModel;

    open spec fn view(&self) -> MergeModel {
        MergeModel { from: self.from@, to: self.to@ }
    }
}

impl View for Workflow {
    type V = WorkflowModel;

    open spec fn view(&self) -> WorkflowModel {
        WorkflowModel {
            merge: Seq::new(self.merge@.len(), |i: int| self.merge@[i]@),
            comment: self.comment@,
            tasks: texts_of(self.tasks@),
        }
    }
}

impl View for WorkflowConfig {
    type V = Seq<WorkflowModel>;

    open spec fn view(&self) -> Seq<WorkflowModel> {
        Seq::new(self.workflow@.len(), |i: int| self.workflow@[i]@)
    }
}

} // verus!
