//! A yes/no questionnaire asked one question at a time; the asking is done
//! by the caller, which hands each response back.

use vstd::prelude::*;

verus! {

/// Why a response was not recorded.
#[derive(Clone, Copy, Debug, PartialEq, Eq, Structural)]
pub enum QuizError {
    /// The user answered neither yes nor no.
    Cancelled,
    /// Every question is already answered.
    Finished,
}

/// A questionnaire: a title, its questions, a response slot for each, and
/// the index of the next question to ask.
pub struct Quiz {
    title: String,
    questions: Vec<String>,
    responses: Vec<Option<bool>>,
    current: usize,
}

pub struct QuizView {
    pub title: Seq<char>,
    pub questions: Seq<Seq<char>>,
    pub responses: Seq<Option<bool>>,
    pub current: nat,
}

impl QuizView {
    /// One response slot per question; the questions before `current` are
    /// answered and the others are not.
    pub open spec fn wf(self) -> bool {
        &&& self.responses.len() == self.questions.len()
        &&& self.current <= self.questions.len()
        &&& forall|j: int| 0 <= j < self.current ==> (#[trigger] self.responses[j]) is Some
        &&& forall|j: int|
            self.current <= j < self.responses.len() ==> (#[trigger] self.responses[j]) is None
    }
}

/// How many responses in `r` are answered.
pub open spec fn count_answered(r: Seq<Option<bool>>) -> nat
    decreases r.len(),
{
    if r.len() == 0 {
        0
    } else {
        count_answered(r.drop_last()) + if r.last() is Some {
            1nat
        } else {
            0nat
        }
    }
}

impl View for Quiz {
    type V = QuizView;

    closed spec fn view(&self) -> QuizView {
        QuizView {
            title: self.title@,
            questions: self.questions@.map_values(|q: String| q@),
            responses: self.responses@,
            current: self.current as nat,
        }
    }
}

impl Quiz {
    /// A questionnaire with no question yet.
    pub fn new(title: &str) -> (q: Quiz)
        ensures
            q@.title == title@,
            q@.questions.len() == 0,
            q@.responses.len() == 0,
            q@.current == 0,
            q@.wf(),
    {
        let q = Quiz {
            title: title.to_owned(),
            questions: Vec::new(),
            responses: Vec::new(),
            current: 0,
        };
        assert(q@.questions =~= Seq::<Seq<char>>::empty());
        q
    }

    /// Appends a question with no response yet.
    pub fn add_question(&mut self, question: &str) -> (r: &mut Self)
        requires
            old(self)@.wf(),
        ensures
            r@ == (QuizView {
                questions: old(self)@.questions.push(question@),
                responses: old(self)@.responses.push(None),
                ..old(self)@
            }),
            r@.wf(),
            *final(self) == *final(r),
    {
        self.questions.push(question.to_owned());
        self.responses.push(None);
        assert(self@.questions =~= old(self)@.questions.push(question@));
        self
    }

    /// Records the user's response to the current question: `Some(yes)`
    /// answers it and moves to the next one, `None` cancels the quiz.
    pub fn answer(&mut self, response: Option<bool>) -> (r: Result<(), QuizError>)
        requires
            old(self)@.wf(),
        ensures
            final(self)@.wf(),
            old(self)@.current == old(self)@.questions.len() ==> r == Err::<(), QuizError>(
                QuizError::Finished,
            ) && final(self)@ == old(self)@,
            old(self)@.current < old(self)@.questions.len() && response is None ==> r == Err::<
                (),
                QuizError,
            >(QuizError::Cancelled) && final(self)@ == old(self)@,
            old(self)@.current < old(self)@.questions.len() && response is Some ==> r is Ok
                && final(self)@ == (QuizView {
                responses: old(self)@.responses.update(old(self)@.current as int, response),
                current: old(self)@.current + 1,
                ..old(self)@
            }),
    {
        if self.current >= self.questions.len() {
            return Err(QuizError::Finished);
        }
        match response {
            Some(yes) => {
                let i = self.current;
                self.responses.set(i, Some(yes));
                self.current = i + 1;
                Ok(())
            },
            None => Err(QuizError::Cancelled),
        }
    }

    /// The number of questions the user got to before cancelling: those
    /// answered, and the one cancelled.
    pub fn cancelled_after(&self) -> (r: usize)
        requires
            self@.wf(),
            self@.responses.len() < usize::MAX,
        ensures
            r == 1 + count_answered(self@.responses),
    {
        let mut n: usize = 1;
        let mut i: usize = 0;
        while i < self.responses.len()
            invariant
                0 <= i <= self.responses@.len(),
                self.responses@.len() < usize::MAX,
                n == 1 + count_answered(self.responses@.take(i as int)),
                count_answered(self.responses@.take(i as int)) <= i,
            decreases self.responses@.len() - i,
        {
            assert(self.responses@.take(i + 1).drop_last() =~= self.responses@.take(i as int));
            if self.responses[i].is_some() {
                n = n + 1;
            }
            i = i + 1;
        }
        assert(self.responses@.take(i as int) =~= self.responses@);
        n
    }

    pub fn title(&self) -> (r: &String)
        ensures
            r@ == self@.title,
    {
        &self.title
    }

    /// The number of questions.
    pub fn len(&self) -> (r: usize)
        ensures
            r == self@.questions.len(),
    {
        self.questions.len()
    }

    /// The index of the next question to ask.
    pub fn current(&self) -> (r: usize)
        ensures
            r == self@.current,
    {
        self.current
    }

    /// The question at index `i`.
    pub fn question(&self, i: usize) -> (r: &String)
        requires
            i < self@.questions.len(),
        ensures
            r@ == self@.questions[i as int],
    {
        &self.questions[i]
    }

    /// The response to the question at index `i`.
    pub fn response(&self, i: usize) -> (r: Option<bool>)
        requires
            self@.wf(),
            i < self@.questions.len(),
        ensures
            r == self@.responses[i as int],
    {
        self.responses[i]
    }
}

} // verus!
