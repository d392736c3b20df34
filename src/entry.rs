use vstd::prelude::*;

verus! {

/// One stored to-do item.
pub struct TodoEntry {
    pub id: i64,
    pub text: String,
}

impl View for TodoEntry {
    type V = (i64, Seq<char>);

    open spec fn view(&self) -> (i64, Seq<char>) {
        (self.id, self.text@)
    }
}

impl TodoEntry {
    pub fn new(id: i64, text: String) -> (r: TodoEntry)
        ensures
            r@ == (id, text@),
    {
        TodoEntry { id, text }
    }

    pub fn id(&self) -> (r: i64)
        ensures
            r == self.id,
    {
        self.id
    }

    pub fn text(&self) -> (r: &str)
        ensures
            r@ == self.text@,
    {
        self.text.as_str()
    }

    /// A copy of the entry with the same id and text.
    pub fn duplicate(&self) -> (r: TodoEntry)
        ensures
            r@ == self@,
    {
        TodoEntry { id: self.id, text: self.text.clone() }
    }
}

/// The views of a sequence of entries, in order.
pub open spec fn entries_view(v: Seq<TodoEntry>) -> Seq<(i64, Seq<char>)> {
    v.map_values(|e: TodoEntry| e@)
}

} // verus!
