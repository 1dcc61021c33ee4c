//! The order of the work: what a job leads to is done before what stands behind that job.

use std::collections::VecDeque;

use vstd::prelude::*;

use crate::app::{Flags, Tasks};
use crate::laws;
use crate::message::{Command, CommandView, Event, EventView, Job, JobView};
use crate::model::TasksView;
use crate::views;

verus! {

/// The application with the jobs that are due, the next one first.
#[derive(Debug)]
pub struct Runtime {
    pub tasks: Tasks,
    pub agenda: VecDeque<Job>,
}

#[verifier::ext_equal]
pub struct RuntimeView {
    pub tasks: TasksView,
    pub agenda: Seq<JobView>,
}

impl View for Runtime {
    type V = RuntimeView;

    open spec fn view(&self) -> RuntimeView {
        RuntimeView { tasks: self.tasks@, agenda: views::seq_view(self.agenda@) }
    }
}

impl TasksView {
    /// Whether a job can be done.
    pub open spec fn admits_job(self, job: JobView) -> bool {
        match job {
            JobView::Handle(event) => self.admits(event),
            _ => true,
        }
    }

    /// What a job does to the state, and which jobs it leaves.
    pub open spec fn after_job(self, job: JobView) -> (TasksView, Seq<JobView>) {
        match job {
            JobView::Perform(_) => (self, Seq::empty()),
            JobView::Handle(event) => self.handle(event),
            JobView::ServeContent(output) => self.serve_content(output),
            JobView::ServeDetails(output) => self.serve_details(output),
            JobView::RemoveActiveItem => (
                TasksView { nav_model: self.nav_model.without_active(), ..self },
                Seq::empty(),
            ),
            JobView::TitleWindow(_, title) => (
                TasksView { window_title: Some(title), ..self },
                Seq::empty(),
            ),
        }
    }
}

/// The command that a job hands out, if any.
pub open spec fn job_command(job: JobView) -> Option<CommandView> {
    match job {
        JobView::Perform(command) => Some(command),
        JobView::TitleWindow(id, title) => Some(CommandView::SetWindowTitle(id, title)),
        _ => None,
    }
}

impl RuntimeView {
    /// Whether a step can be taken: there is a job, and it can be done.
    pub open spec fn ready(self) -> bool {
        self.agenda.len() > 0 && self.tasks.admits_job(self.agenda[0])
    }

    /// After the first job: the jobs that it leaves stand before the others.
    pub open spec fn stepped(self) -> RuntimeView {
        let (tasks, jobs) = self.tasks.after_job(self.agenda[0]);
        RuntimeView { tasks, agenda: jobs + self.agenda.drop_first() }
    }

    /// After an answer to the last command: it is handled next.
    pub open spec fn answered(self, event: EventView) -> RuntimeView {
        RuntimeView { agenda: seq![JobView::Handle(event)] + self.agenda, ..self }
    }

    /// After something new happened: it is handled when all else is done.
    pub open spec fn submitted(self, event: EventView) -> RuntimeView {
        RuntimeView { agenda: self.agenda.push(JobView::Handle(event)), ..self }
    }
}

broadcast use crate::views::group_seq_view;

impl Runtime {
    /// The application at its start.
    pub fn start(flags: Flags) -> (r: Runtime)
        ensures
            r@.tasks == flags@.tasks(),
            r@.agenda == flags@.jobs(),
            r@.tasks.wf(),
    {
        let (tasks, jobs) = Tasks::init(flags);
        let mut r = Runtime { tasks, agenda: VecDeque::new() };
        r.put_first(jobs);
        r
    }

    /// Puts jobs before those that are due.
    fn put_first(&mut self, jobs: Vec<Job>)
        ensures
            final(self).tasks == old(self).tasks,
            views::seq_view(final(self).agenda@) == views::seq_view(jobs@) + views::seq_view(
                old(self).agenda@,
            ),
    {
        let ghost all = jobs@;
        let ghost behind = self.agenda@;
        let mut jobs: Vec<Job> = jobs;
        while jobs.len() > 0
            invariant
                self.tasks == old(self).tasks,
                jobs@.len() <= all.len(),
                jobs@ == all.take(jobs@.len() as int),
                self.agenda@ == all.skip(jobs@.len() as int) + behind,
            decreases jobs.len(),
        {
            let ghost n = jobs@.len() as int;
            if let Some(job) = jobs.pop() {
                self.agenda.push_front(job);
                assert(jobs@ =~= all.take(n - 1));
                assert(seq![job] + all.skip(n) =~= all.skip(n - 1));
                assert(self.agenda@ =~= all.skip(n - 1) + behind);
            }
        }
        assert(all.skip(0) =~= all);
    }

    /// Whether nothing is left to do.
    pub fn is_idle(&self) -> (r: bool)
        ensures
            r == (self@.agenda.len() == 0),
    {
        self.agenda.len() == 0
    }

    /// Whether a step can be taken.
    pub fn is_ready(&self) -> (r: bool)
        ensures
            r == self@.ready(),
    {
        if self.agenda.len() == 0 {
            return false;
        }
        assert(self@.agenda[0] == self.agenda@[0]@);
        match &self.agenda[0] {
            Job::Handle(event) => self.tasks.admits(event),
            _ => true,
        }
    }

    /// Does the first job, and hands out the command that it holds, if any.
    pub fn step(&mut self) -> (r: Option<Command>)
        requires
            old(self)@.ready(),
        ensures
            final(self)@ == old(self)@.stepped(),
            views::opt_view(r) == job_command(old(self)@.agenda[0]),
            old(self)@.tasks.wf() ==> final(self)@.tasks.wf(),
    {
        let ghost before = self@;
        proof {
            if before.tasks.wf() {
                laws::law_steps_keep_wf(before);
            }
        }
        let mut jobs: Vec<Job> = Vec::new();
        let mut command: Option<Command> = None;
        assert(before.agenda[0] == self.agenda@[0]@);
        if let Some(job) = self.agenda.pop_front() {
            assert(views::seq_view(self.agenda@) =~= before.agenda.drop_first());
            match job {
                Job::Perform(due) => {
                    command = Some(due);
                },
                Job::Handle(event) => {
                    jobs = self.tasks.handle(event);
                },
                Job::ServeContent(output) => {
                    self.tasks.serve_content(&mut jobs, output);
                },
                Job::ServeDetails(output) => {
                    self.tasks.serve_details(&mut jobs, output);
                },
                Job::RemoveActiveItem => {
                    self.tasks.remove_active_item();
                },
                Job::TitleWindow(id, title) => {
                    self.tasks.window_title = Some(title.clone());
                    command = Some(Command::SetWindowTitle(id, title));
                },
            }
        }
        self.put_first(jobs);
        command
    }

    /// Takes the answer to the last command: it is handled next.
    pub fn answer(&mut self, event: Event)
        ensures
            final(self)@ == old(self)@.answered(event@),
    {
        let ghost before = self.agenda@;
        self.agenda.push_front(Job::Handle(event));
        assert(views::seq_view(self.agenda@) =~= seq![JobView::Handle(event@)] + views::seq_view(
            before,
        ));
    }

    /// Takes something new: it is handled when all else is done.
    pub fn submit(&mut self, event: Event)
        ensures
            final(self)@ == old(self)@.submitted(event@),
    {
        self.agenda.push_back(Job::Handle(event));
    }
}

} // verus!
