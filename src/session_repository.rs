use vstd::prelude::*;
use vstd::string::StringExecFns;
use rand::Rng;
use crate::model::session::{Exercise, SessionId};

verus! {

/// Number of exercises in the catalogue.
pub const EXERCISE_COUNT: usize = 12;

/// Relies on rand's `Rng::gen_range` on the thread-local generator: a value in
/// `[0, n)`; the range is not empty.
#[verifier::external_body]
fn random_below(n: usize) -> (r: usize)
    requires
        n > 0,
    ensures
        r < n,
{
    rand::thread_rng().gen_range(0..n)
}

/// The ids of the catalogue's exercises, in order.
pub open spec fn exercise_ids() -> Seq<Seq<char>> {
    seq![
        "rotate-your-head"@,
        "shoulder-circle"@,
        "pelvic-tilt"@,
        "chair-squat"@,
        "chin-tuck"@,
        "w-and-y"@,
        "standing-calf-raise"@,
        "seated-knee-extension"@,
        "seated-glute-stretch-pencil"@,
        "left-down-right-head"@,
        "head-bend-to-the-side"@,
        "elbow-to-knee"@,
    ]
}

/// No two exercises of the catalogue share an id.
pub proof fn lemma_exercise_ids_distinct()
    ensures
        exercise_ids().no_duplicates(),
{
    reveal_strlit("rotate-your-head");
    reveal_strlit("shoulder-circle");
    reveal_strlit("pelvic-tilt");
    reveal_strlit("chair-squat");
    reveal_strlit("chin-tuck");
    reveal_strlit("w-and-y");
    reveal_strlit("standing-calf-raise");
    reveal_strlit("seated-knee-extension");
    reveal_strlit("seated-glute-stretch-pencil");
    reveal_strlit("left-down-right-head");
    reveal_strlit("head-bend-to-the-side");
    reveal_strlit("elbow-to-knee");
    let ids = exercise_ids();
    assert forall|a: int, b: int| 0 <= a < b < ids.len() implies ids[a] != ids[b] by {
        if ids[a].len() == ids[b].len() {
            assert(ids[a][0] != ids[b][0]);
        }
    }
}

/// The exercise catalogue and which exercises were shown in the current round.
pub struct SessionRepository {
    exercises: Vec<Exercise>,
    picked_sessions: Vec<usize>,
}

/// The abstract state of a repository.
pub struct RepositoryState {
    pub exercises: Seq<Exercise>,
    /// Indices shown in the current round, in the order they were shown.
    pub picked: Seq<usize>,
}

impl View for SessionRepository {
    type V = RepositoryState;

    closed spec fn view(&self) -> RepositoryState {
        RepositoryState { exercises: self.exercises@, picked: self.picked_sessions@ }
    }
}

impl RepositoryState {
    pub open spec fn wf(self) -> bool {
        &&& self.exercises.len() <= usize::MAX
        &&& self.picked.no_duplicates()
        &&& forall|k: int| 0 <= k < self.picked.len() ==> #[trigger] self.picked[k] < self.exercises.len()
    }

    /// The picks of the round, emptied once every exercise has been shown.
    pub open spec fn round(self) -> Seq<usize> {
        if self.picked.len() == self.exercises.len() { Seq::empty() } else { self.picked }
    }

    /// Indices below `k` of active exercises not yet shown in the round, in
    /// increasing order.
    pub open spec fn available_upto(self, k: nat) -> Seq<usize>
        decreases k,
    {
        if k == 0 {
            Seq::empty()
        } else {
            let i = (k - 1) as nat;
            let rest = self.available_upto(i);
            if self.exercises[i as int].active && !self.round().contains(i as usize) {
                rest.push(i as usize)
            } else {
                rest
            }
        }
    }

    pub open spec fn available(self) -> Seq<usize> {
        self.available_upto(self.exercises.len())
    }

    /// The state after choosing entry `choice` (modulo their number) of the
    /// available exercises, and the index chosen.
    pub open spec fn pick(self, choice: usize) -> (RepositoryState, Option<usize>) {
        let avail = self.available();
        if avail.len() == 0 {
            (RepositoryState { picked: self.round(), ..self }, None)
        } else {
            let idx = avail[choice as int % avail.len() as int];
            (RepositoryState { picked: self.round().push(idx), ..self }, Some(idx))
        }
    }
}

proof fn lemma_available_upto(s: RepositoryState, k: nat)
    requires
        k <= s.exercises.len(),
        s.exercises.len() <= usize::MAX,
    ensures
        forall|t: int| 0 <= t < s.available_upto(k).len() ==> {
            let i = #[trigger] s.available_upto(k)[t];
            &&& i < k
            &&& s.exercises[i as int].active
            &&& !s.round().contains(i)
        },
        s.available_upto(k).no_duplicates(),
    decreases k,
{
    if k > 0 {
        let i = (k - 1) as nat;
        lemma_available_upto(s, i);
        let rest = s.available_upto(i);
        if s.exercises[i as int].active && !s.round().contains(i as usize) {
            let all = rest.push(i as usize);
            assert(all == s.available_upto(k));
            assert forall|t: int| 0 <= t < all.len() implies {
                let j = #[trigger] all[t];
                &&& j < k
                &&& s.exercises[j as int].active
                &&& !s.round().contains(j)
            } by {
                if t < rest.len() {
                    assert(all[t] == rest[t]);
                } else {
                    assert(all[t] == i as usize);
                    assert(i as usize as int == i);
                }
            }
            assert forall|a: int, b: int| 0 <= a < b < all.len() implies all[a] != all[b] by {
                assert(all[a] == rest[a]);
                if b == all.len() - 1 {
                    assert(rest[a] < i);
                    assert(all[b] == i as usize);
                } else {
                    assert(all[b] == rest[b]);
                }
            }
        }
    }
}

impl SessionRepository {
    /// The catalogue, with no exercise shown yet.
    pub fn new() -> (r: SessionRepository)
        ensures
            r@.exercises.len() == EXERCISE_COUNT,
            forall|i: int| 0 <= i < EXERCISE_COUNT ==> (#[trigger] r@.exercises[i]).active,
            forall|i: int| 0 <= i < EXERCISE_COUNT ==> (#[trigger] r@.exercises[i]).id.0@ == exercise_ids()[i],
            forall|i: int, j: int| 0 <= i < j < EXERCISE_COUNT ==> r@.exercises[i].id != r@.exercises[j].id,
            r@.picked.len() == 0,
            r@.wf(),
    {
        let mut exercises: Vec<Exercise> = Vec::new();
        exercises.push(Exercise {
            id: SessionId(String::from_str("rotate-your-head")),
            title: String::from_str("Rotate your head"),
            description: String::from_str("Slowly rotate your head to release tension and improve neck mobility."),
            advices: vec![
                    String::from_str("You can perform this mobility exercise either sitting or standing."),
                    String::from_str("Relax your shoulders and begin to slowly circle your head."),
                    String::from_str("Start with a smaller range of motion. Decide for yourself how far you want to go into the stretch."),
                    String::from_str("Important: Perform the head circles very slowly and consciously, and avoid hasty, thoughtless movements."),
            ],
            duration_s: 30,
            active: true,
        });
        exercises.push(Exercise {
            id: SessionId(String::from_str("shoulder-circle")),
            title: String::from_str("Shoulder Circles"),
            description: String::from_str("A gentle shoulder mobility exercise that relieves tension and promotes relaxation."),
            advices: vec![
                    String::from_str("Begin with small, slow shoulder circles to ease into the movement."),
                    String::from_str("Gradually increase the range of motion, making the circles larger."),
                    String::from_str("Lift your shoulders up towards your ears during the movement for added stretch."),
                    String::from_str("Breathe deeply and evenly to maximize relaxation and tension relief."),
                    String::from_str("Change your rotation direction to balance your movement."),
            ],
            duration_s: 40,
            active: true,
        });
        exercises.push(Exercise {
            id: SessionId(String::from_str("pelvic-tilt")),
            title: String::from_str("Pelvic Tilt"),
            description: String::from_str("A seated exercise to improve hip flexibility and core engagement through controlled pelvic movements."),
            advices: vec![
                    String::from_str("Sit comfortably on a chair with your upper body upright and maintain a natural curve in your lower back."),
                    String::from_str("Start with a neutral spine, keeping a slight arch in your lumbar region (lower back)."),
                    String::from_str("Engage your lower back by squeezing your glutes while simultaneously pulling your belly button inward."),
                    String::from_str("Notice the tension in your core as the arch in your lower back flattens slightly."),
                    String::from_str("Perform this movement in a steady, fluid rhythm, paying attention to your breathing."),
            ],
            duration_s: 20,
            active: true,
        });
        exercises.push(Exercise {
            id: SessionId(String::from_str("chair-squat")),
            title: String::from_str("Chair Squat"),
            description: String::from_str("An effective bodyweight exercise to strengthen triceps, shoulders, and chest using a sturdy chair or bench."),
            advices: vec![
                    String::from_str("Lower your body by bending your elbows to a 90-degree angle while inhaling."),
                    String::from_str("Push back up to the starting position, fully extending your arms while exhaling."),
                    String::from_str("Maintain relaxed shoulders and a neutral neck position to avoid strain."),
                    String::from_str("Perform slow, controlled movements for better muscle engagement and injury prevention."),
            ],
            duration_s: 30,
            active: true,
        });
        exercises.push(Exercise {
            id: SessionId(String::from_str("chin-tuck")),
            title: String::from_str("Chin Tucks"),
            description: String::from_str("A simple exercise to improve neck muscle endurance, relieve tension, and promote better posture."),
            advices: vec![
                    String::from_str("Stand in a comfortable, upright position with your shoulders relaxed"),
                    String::from_str("Keep your head straight, look forward."),
                    String::from_str("Retract your chin backward without tilting your head, as if making a double chin."),
                    String::from_str("Focus on relaxing your jaw muscles as you hold this position."),
                    String::from_str("Slowly return to the starting position, allowing your neck muscles to relax."),
                    String::from_str("You should feel a gentle stretch at the back of your neck and slight muscle engagement at the front."),
                    String::from_str("This exercise may help relieve tension headaches, improve sitting posture, and reduce neck pain."),
            ],
            duration_s: 20,
            active: true,
        });
        exercises.push(Exercise {
            id: SessionId(String::from_str("w-and-y")),
            title: String::from_str("W and Y"),
            description: String::from_str("A postural strengthening exercise to improve shoulder stability and upper back mobility."),
            advices: vec![
                    String::from_str("Start in a standing or prone position with your back straight and core engaged."),
                    String::from_str("For the W movement: Bend your elbows to 90 degrees and bring your arms back to form a 'W' shape, squeezing your shoulder blades together."),
                    String::from_str("Hold the W position for 2-3 seconds before slowly returning to the starting position."),
                    String::from_str("For the Y movement: Extend your arms straight overhead into a 'Y' shape, keeping your elbows slightly bent."),
                    String::from_str("Lift your arms in the Y position with control, focusing on engaging your upper back muscles."),
                    String::from_str("Avoid shrugging your shoulders or arching your back during the exercise."),
                    String::from_str("Perform the movements slowly and consciously, ensuring proper form and breathing."),
            ],
            duration_s: 40,
            active: true,
        });
        exercises.push(Exercise {
            id: SessionId(String::from_str("standing-calf-raise")),
            title: String::from_str("Standing Calf Raise"),
            description: String::from_str("A simple exercise to strengthen the calf muscles and improve balance."),
            advices: vec![
                    String::from_str("Stand tall with your feet shoulder-width apart, keeping your posture upright."),
                    String::from_str("Place your hands on your hips or a sturdy surface for balance, if needed."),
                    String::from_str("Slowly lift your heels off the ground, rising onto the balls of your feet."),
                    String::from_str("Pause at the top of the movement for 1-2 seconds, feeling the contraction in your calves."),
                    String::from_str("Lower your heels back to the ground in a controlled manner."),
                    String::from_str("Focus on engaging your calf muscles and maintaining smooth, steady movements."),
                    String::from_str("Avoid locking your knees or rocking your body during the exercise."),
            ],
            duration_s: 30,
            active: true,
        });
        exercises.push(Exercise {
            id: SessionId(String::from_str("seated-knee-extension")),
            title: String::from_str("Seated Knee Extension"),
            description: String::from_str("An exercise to strengthen the quadriceps and improve knee mobility."),
            advices: vec![
                    String::from_str("Sit on a sturdy chair with your back straight and feet flat on the ground."),
                    String::from_str("Keep your knees bent at a 90-degree angle and your hands resting on your thighs or the sides of the chair."),
                    String::from_str("Slowly straighten one leg, lifting your foot until your knee is fully extended."),
                    String::from_str("Hold the extended position for 2-3 seconds, focusing on squeezing your quadriceps."),
                    String::from_str("Lower your foot back to the starting position in a controlled manner."),
                    String::from_str("Repeat on the other leg, alternating legs for the desired number of repetitions."),
                    String::from_str("Avoid locking your knee or using jerky movements during the exercise."),
            ],
            duration_s: 30,
            active: true,
        });
        exercises.push(Exercise {
            id: SessionId(String::from_str("seated-glute-stretch-pencil")),
            title: String::from_str("Seated Glute Stretch"),
            description: String::from_str("A seated stretch to target the glutes and improve hip flexibility."),
            advices: vec![
                    String::from_str("Sit on a sturdy chair with your back straight and feet flat on the floor."),
                    String::from_str("Cross one ankle over the opposite knee, creating a figure-four shape with your legs."),
                    String::from_str("Gently press down on the raised knee to deepen the stretch, keeping your back straight."),
                    String::from_str("Lean slightly forward at the hips, maintaining a neutral spine to increase the intensity of the stretch."),
                    String::from_str("Hold the stretch for 20-30 seconds, focusing on breathing deeply and relaxing your muscles."),
                    String::from_str("Switch sides and repeat with the other leg."),
                    String::from_str("Avoid forcing the stretch or rounding your back during the movement."),
            ],
            duration_s: 40,
            active: true,
        });
        exercises.push(Exercise {
            id: SessionId(String::from_str("left-down-right-head")),
            title: String::from_str("Left Down Right Head Exercise (Seated)"),
            description: String::from_str("A seated neck stretch to relieve tension and improve flexibility in the neck and shoulders."),
            advices: vec![
                    String::from_str("Sit on a sturdy chair with your back straight and shoulders relaxed."),
                    String::from_str("Slowly tilt your head toward your left shoulder, aiming to bring your left ear closer to your left shoulder."),
                    String::from_str("Pause briefly, then gently roll your head down toward your chest, feeling the stretch in the back of your neck."),
                    String::from_str("Continue the motion by rolling your head toward your right shoulder, bringing your right ear closer to your right shoulder."),
                    String::from_str("Move slowly and smoothly in a semicircular pattern, avoiding any jerky or forced movements."),
                    String::from_str("Repeat the motion for the desired number of repetitions, maintaining deep and steady breaths."),
                    String::from_str("Avoid shrugging your shoulders or tilting your torso during the exercise."),
            ],
            duration_s: 30,
            active: true,
        });
        exercises.push(Exercise {
            id: SessionId(String::from_str("head-bend-to-the-side")),
            title: String::from_str("Head Bend to the Side"),
            description: String::from_str("A seated stretch to relieve neck tension and improve lateral neck flexibility."),
            advices: vec![
                    String::from_str("Sit on a sturdy chair with your back straight and shoulders relaxed."),
                    String::from_str("Gently tilt your head toward your left shoulder, aiming to bring your left ear closer to your left shoulder."),
                    String::from_str("Keep your shoulders level and avoid lifting the opposite shoulder during the stretch."),
                    String::from_str("For a deeper stretch, you can place your left hand gently on the side of your head, applying light pressure."),
                    String::from_str("Hold the stretch for 15-20 seconds, breathing deeply and relaxing your muscles."),
                    String::from_str("Return your head to the neutral position and repeat on the other side."),
                    String::from_str("Avoid rotating your head or straining during the movement; focus on a gentle and controlled stretch."),
            ],
            duration_s: 40,
            active: true,
        });
        exercises.push(Exercise {
            id: SessionId(String::from_str("elbow-to-knee")),
            title: String::from_str("Elbow to Knee"),
            description: String::from_str("A dynamic seated exercise to engage the core and improve coordination."),
            advices: vec![
                    String::from_str("Sit on a sturdy chair with your back straight and feet flat on the floor."),
                    String::from_str("Place your hands behind your head, keeping your elbows wide."),
                    String::from_str("Lift your left knee toward your chest while simultaneously twisting your torso to bring your right elbow toward the lifted knee."),
                    String::from_str("Focus on engaging your core muscles as you perform the twisting motion."),
                    String::from_str("Return to the starting position in a controlled manner and repeat on the other side."),
                    String::from_str("Alternate sides for the desired number of repetitions, maintaining steady and controlled movements."),
                    String::from_str("Avoid slouching or using momentum; keep the movement deliberate and focus on muscle engagement."),
            ],
            duration_s: 30,
            active: true,
        });
        proof {
            lemma_exercise_ids_distinct();
            assert forall|i: int, j: int| 0 <= i < j < EXERCISE_COUNT implies exercises@[i].id != exercises@[j].id by {
                assert(exercise_ids()[i] != exercise_ids()[j]);
            }
        }
        SessionRepository { exercises, picked_sessions: Vec::new() }
    }

    pub fn exercise(&self, index: usize) -> (r: &Exercise)
        requires
            index < self@.exercises.len(),
        ensures
            *r == self@.exercises[index as int],
    {
        &self.exercises[index]
    }

    fn is_picked(&self, index: usize) -> (r: bool)
        ensures
            r == self@.picked.contains(index),
    {
        let mut k: usize = 0;
        while k < self.picked_sessions.len()
            invariant
                k <= self.picked_sessions@.len(),
                forall|t: int| 0 <= t < k ==> self.picked_sessions@[t] != index,
            decreases self.picked_sessions@.len() - k,
        {
            if self.picked_sessions[k] == index {
                return true;
            }
            k = k + 1;
        }
        false
    }

    fn in_round(&self, index: usize) -> (r: bool)
        ensures
            r == self@.round().contains(index),
    {
        if self.picked_sessions.len() == self.exercises.len() {
            assert(!self@.round().contains(index));
            false
        } else {
            self.is_picked(index)
        }
    }

    /// The active exercises not shown in the current round, a new round
    /// starting once every exercise has been shown.
    fn available_list(&self) -> (r: Vec<usize>)
        ensures
            r@ == self@.available(),
    {
        let mut avail: Vec<usize> = Vec::new();
        let mut i: usize = 0;
        while i < self.exercises.len()
            invariant
                i <= self@.exercises.len(),
                avail@ == self@.available_upto(i as nat),
            decreases self@.exercises.len() - i,
        {
            if self.exercises[i].active && !self.in_round(i) {
                avail.push(i);
            }
            i = i + 1;
        }
        avail
    }

    /// Shows entry `choice` (modulo their number) of the available exercises:
    /// records it in the round and returns its index.
    pub fn pick_session(&mut self, choice: usize) -> (r: Option<usize>)
        requires
            old(self)@.wf(),
        ensures
            (final(self)@, r) == old(self)@.pick(choice),
            final(self)@.wf(),
    {
        let avail = self.available_list();
        proof { lemma_available_upto(old(self)@, old(self)@.exercises.len()); }
        if self.picked_sessions.len() == self.exercises.len() {
            self.picked_sessions.clear();
        }
        assert(self@.picked =~= old(self)@.round());
        if avail.len() == 0 {
            None
        } else {
            let idx = avail[choice % avail.len()];
            self.picked_sessions.push(idx);
            proof {
                let s = old(self)@;
                let t = (choice % avail.len()) as int;
                assert(avail@[t] == idx);
                assert(!s.round().contains(idx));
                assert(self@.picked == s.round().push(idx));
                assert forall|k: int| 0 <= k < self@.picked.len() implies #[trigger] self@.picked[k] < self@.exercises.len() by {
                    if k < s.round().len() {
                        assert(self@.picked[k] == s.round()[k]);
                    }
                }
                assert(self@.picked.no_duplicates()) by {
                    assert forall|a: int, b: int| 0 <= a < b < self@.picked.len() implies self@.picked[a] != self@.picked[b] by {
                        if b == self@.picked.len() - 1 {
                            assert(self@.picked[a] == s.round()[a]);
                        }
                    }
                }
            }
            Some(idx)
        }
    }

    /// Shows a randomly chosen exercise among the active ones not yet shown in
    /// this round; every exercise is shown once before any repeats.
    pub fn pick_random_session(&mut self) -> (r: Option<&Exercise>)
        requires
            old(self)@.wf(),
        ensures
            final(self)@.wf(),
            r is Some <==> old(self)@.available().len() > 0,
            exists|c: usize| #[trigger] old(self)@.pick(c).0 == final(self)@
                && (r matches Some(e) ==> old(self)@.pick(c).1 matches Some(i) && *e == old(self)@.exercises[i as int]),
    {
        let n = self.available_list().len();
        let choice = if n > 0 { random_below(n) } else { 0 };
        let picked = self.pick_session(choice);
        assert(old(self)@.pick(choice).0 == self@);
        match picked {
            Some(idx) => {
                proof { lemma_available_upto(old(self)@, old(self)@.exercises.len()); }
                Some(&self.exercises[idx])
            },
            None => None,
        }
    }
}

} // verus!
