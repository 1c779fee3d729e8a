use vstd::prelude::*;
use super::{
    MachineView, step, run, machine_wf, initial_machine, first_firing, state_position, scores_increase,
    lemma_first_firing, lemma_position_from, FraudStateMachineDefView,
};

verus! {

/// A script stage never moves back: after any message a well-formed machine
/// is still well-formed, keeps its script, is at the same stage or a later
/// one, and it moved exactly when its stage changed. A move extends the
/// path by the new stage and keeps the keywords matched so far.
pub proof fn lemma_step_moves_forward(m: MachineView, text: Seq<char>)
    requires
        machine_wf(m),
    ensures
        machine_wf(step(m, text).0),
        step(m, text).0.def == m.def,
        step(m, text).0.current_index >= m.current_index,
        step(m, text).1 <==> step(m, text).0.current_index > m.current_index,
        m.state_history.is_prefix_of(step(m, text).0.state_history),
        m.matched_keywords.is_prefix_of(step(m, text).0.matched_keywords),
{
    lemma_first_firing(m.def, m.current_index, text, 0);
    match first_firing(m.def, m.current_index, text, 0) {
        Some(k) => {
            let t = m.def.transitions[k];
            lemma_position_from(m.def.states, t.to_state, 0);
            let n = state_position(m.def.states, t.to_state).unwrap();
            let m2 = step(m, text).0;
            assert(m2.state_history == m.state_history.push(n));
            assert(m2.state_history.subrange(0, m.state_history.len() as int) =~= m.state_history);
            assert(m2.matched_keywords.subrange(0, m.matched_keywords.len() as int) =~= m.matched_keywords);
            assert forall|i: int, j: int| 0 <= i < j < m2.state_history.len() implies m2.state_history[i]
                < m2.state_history[j] by {
                if j == m2.state_history.len() - 1 && i < j {
                    assert(m.state_history[i] <= m.state_history.last());
                }
            }
        },
        None => {
            assert(m.state_history.subrange(0, m.state_history.len() as int) =~= m.state_history);
            assert(m.matched_keywords.subrange(0, m.matched_keywords.len() as int) =~= m.matched_keywords);
        },
    }
}

/// Over a whole conversation a well-formed machine stays well-formed, keeps
/// its script, never goes back to an earlier stage, and only extends its
/// path and its list of matched keywords.
pub proof fn lemma_run_moves_forward(m: MachineView, texts: Seq<Seq<char>>)
    requires
        machine_wf(m),
    ensures
        machine_wf(run(m, texts)),
        run(m, texts).def == m.def,
        run(m, texts).current_index >= m.current_index,
        m.state_history.is_prefix_of(run(m, texts).state_history),
        m.matched_keywords.is_prefix_of(run(m, texts).matched_keywords),
    decreases texts.len(),
{
    if texts.len() == 0 {
        assert(m.state_history.subrange(0, m.state_history.len() as int) =~= m.state_history);
        assert(m.matched_keywords.subrange(0, m.matched_keywords.len() as int) =~= m.matched_keywords);
    } else {
        let before = run(m, texts.drop_last());
        lemma_run_moves_forward(m, texts.drop_last());
        lemma_step_moves_forward(before, texts.last());
        let after = run(m, texts);
        assert(after == step(before, texts.last()).0);
        assert(m.state_history.is_prefix_of(after.state_history)) by {
            assert forall|i: int| 0 <= i < m.state_history.len() implies after.state_history[i] == m.state_history[i] by {
                assert(before.state_history[i] == m.state_history.subrange(0, m.state_history.len() as int)[i]);
                assert(after.state_history[i] == after.state_history.subrange(0, before.state_history.len() as int)[i]);
            }
            assert(m.state_history =~= after.state_history.subrange(0, m.state_history.len() as int));
        }
        assert(m.matched_keywords.is_prefix_of(after.matched_keywords)) by {
            assert forall|i: int| 0 <= i < m.matched_keywords.len() implies after.matched_keywords[i] == m.matched_keywords[i] by {
                assert(before.matched_keywords[i] == m.matched_keywords.subrange(0, m.matched_keywords.len() as int)[i]);
                assert(after.matched_keywords[i] == after.matched_keywords.subrange(0, before.matched_keywords.len() as int)[i]);
            }
            assert(m.matched_keywords =~= after.matched_keywords.subrange(0, m.matched_keywords.len() as int));
        }
    }
}

/// In a script whose stages carry rising risk scores, the risk score of a
/// machine never falls as the conversation goes on.
pub proof fn lemma_run_risk_never_decreases(m: MachineView, texts: Seq<Seq<char>>)
    requires
        machine_wf(m),
        scores_increase(m.def.states),
    ensures
        run(m, texts).def.states[run(m, texts).current_index].risk_score >= m.def.states[m.current_index].risk_score,
{
    lemma_run_moves_forward(m, texts);
    let after = run(m, texts);
    if after.current_index > m.current_index {
        assert(m.def.states[m.current_index].risk_score < m.def.states[after.current_index].risk_score);
    }
}

/// A fresh machine over a script with at least one stage is well-formed,
/// at the first stage, with a path of that stage alone and no keywords.
pub proof fn lemma_initial_machine_wf(def: FraudStateMachineDefView)
    requires
        def.states.len() > 0,
    ensures
        machine_wf(initial_machine(def)),
        initial_machine(def).current_index == 0,
        initial_machine(def).state_history == seq![0int],
        initial_machine(def).matched_keywords.len() == 0,
{
}

} // verus!
