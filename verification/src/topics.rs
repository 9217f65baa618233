//! The catalog of learning topics: fixed content, built into the library.

use crate::text::same_text;
use crate::types::{topic_views, Step, StepView, Topic, TopicView};
use vstd::prelude::*;

verus! {

/// The id of the topic on setting up GitHub.
pub const GITHUB_SETUP_ID: &'static str = "github-setup";

/// The title of the GitHub topic.
pub const GITHUB_SETUP_TITLE: &'static str = "GitHub Setup";

/// The description of the GitHub topic.
pub const GITHUB_SETUP_DESCRIPTION: &'static str =
    "Learn how to set up your GitHub account and start using Git";

/// The message that opens the GitHub topic.
pub const GITHUB_SETUP_INITIAL_MESSAGE: &'static str = r#"# Welcome to the GitHub Setup Guide!

Here's a quick overview of how to use this tutorial:

1. **Chat Window**: This is where we'll interact. I'll provide instructions and you can ask questions.

2. **Next Step**: Use the 'Next Step' button at the bottom right to progress through the tutorial.

3. **Ask Questions**: Feel free to type any questions or ask for clarification at any time.

**Let's begin!** Click the 'Next Step' button to start your GitHub setup journey."#;

/// The titles of the steps of the GitHub topic, in order.
pub const GITHUB_SETUP_STEP_TITLES: [&'static str; 11] = [
    "Introduction to GitHub",
    "Create a GitHub account",
    "Install Git on your local machine",
    "Set up SSH keys for secure authentication",
    "Configure Git with your GitHub credentials",
    "Create your first repository",
    "Clone the repository to your local machine",
    "Make changes and commit them",
    "Push changes to GitHub",
    "Create a branch and make a pull request",
    "Collaborate on a project",
];

/// The prompt of each step of the GitHub topic.
pub const GITHUB_SETUP_STEP_PROMPTS: [&'static str; 11] = [
    "Provide a brief introduction to GitHub, explaining what it is and its main purposes for developers. Keep the explanation simple and engaging for beginners.",
    "Outline a concise, step-by-step guide on how to create a GitHub account. Focus only on the essential steps, keeping the instructions clear and easy to follow for new users.",
    "Explain how to install Git on a local machine. Provide clear instructions for common operating systems (Windows, macOS, Linux). Keep the explanation concise but informative.",
    "Provide a brief, step-by-step guide on how to set up SSH keys for GitHub authentication. Ensure the instructions are clear and easy to follow for users who might be new to this concept.",
    "Explain how to configure Git with GitHub credentials. Focus on the essential commands, providing clear instructions for users to follow. Include any necessary explanations of what each command does.",
    "Describe how to create a new repository on GitHub. Cover only the basic steps, ensuring the instructions are clear and concise for new users.",
    "Explain how to clone a GitHub repository to a local machine. Include the basic command and a brief explanation of what cloning means and why it's important.",
    "Provide instructions on how to make changes to files and commit them using Git. Focus on the essential commands, explaining each step clearly for new users.",
    "Explain how to push local commits to GitHub. Include the basic command and a brief explanation of what pushing means in the context of Git and GitHub.",
    "Describe how to create a branch and make a pull request on GitHub. Cover the essential steps, explaining the concepts of branching and pull requests in a way that's easy for beginners to understand.",
    "Provide an overview of how to start collaborating on a GitHub project. Mention key concepts like forking and contributing, explaining them in a way that's accessible to new users. Include basic steps for getting involved in open-source projects.",
];

/// The questions suggested at each step of the GitHub topic.
pub const GITHUB_SETUP_STEP_QUESTIONS: [[&'static str; 3]; 11] = [
    [
        "How is GitHub different from Git?",
        "Why do developers use GitHub?",
        "Is GitHub only for programmers?",
    ],
    [
        "What information do I need to create a GitHub account?",
        "Is it free to create a GitHub account?",
        "Can I use my work email to sign up?",
    ],
    [
        "How do I check if Git is already installed?",
        "Are there different installation methods for Windows and Mac?",
        "Do I need admin rights to install Git?",
    ],
    [
        "Why should I use SSH keys instead of passwords?",
        "Can I use the same SSH key for multiple GitHub accounts?",
        "What if I lose my SSH key?",
    ],
    [
        "How do I update my Git configuration if I change my GitHub username?",
        "Can I use different Git configurations for different projects?",
        "What's the difference between local and global Git configurations?",
    ],
    [
        "What's the difference between public and private repositories?",
        "Should I initialize the repository with a README?",
        "How do I choose a good name for my repository?",
    ],
    [
        "Can I clone someone else's repository?",
        "What's the difference between cloning with HTTPS and SSH?",
        "Where should I clone my repository to on my local machine?",
    ],
    [
        "What's a good practice for writing commit messages?",
        "How often should I commit my changes?",
        "Can I undo a commit?",
    ],
    [
        "What happens if someone else pushed changes before me?",
        "Can I push to someone else's repository?",
        "How do I know if my push was successful?",
    ],
    [
        "Why should I create a branch instead of working on the main branch?",
        "How do I name my branches?",
        "What happens after I create a pull request?",
    ],
    [
        "How do I find projects to contribute to?",
        "What's the difference between forking and cloning?",
        "How do I suggest changes to someone else's project?",
    ],
];

/// The step at position `i` of the GitHub topic.
pub open spec fn github_setup_step(i: int) -> StepView {
    StepView {
        title: GITHUB_SETUP_STEP_TITLES[i]@,
        prompt: GITHUB_SETUP_STEP_PROMPTS[i]@,
        suggested_questions: Seq::new(3, |j: int| GITHUB_SETUP_STEP_QUESTIONS[i][j]@),
    }
}

/// The topic on setting up GitHub, as the tables above give it.
pub open spec fn github_setup_topic() -> TopicView {
    TopicView {
        id: GITHUB_SETUP_ID@,
        title: GITHUB_SETUP_TITLE@,
        description: GITHUB_SETUP_DESCRIPTION@,
        steps: Seq::new(11, |i: int| github_setup_step(i)),
        initial_message: GITHUB_SETUP_INITIAL_MESSAGE@,
    }
}

/// The catalog: every topic, in its fixed order.
pub open spec fn all_topics() -> Seq<TopicView> {
    seq![github_setup_topic()]
}

/// The topic of the catalog with the given id, if there is one.
pub open spec fn find_topic(id: Seq<char>) -> Option<TopicView> {
    if id == GITHUB_SETUP_ID@ {
        Some(github_setup_topic())
    } else {
        None
    }
}

/// `find_topic` finds exactly the topics of the catalog: it answers with a
/// topic of `all_topics` that has the id asked for, and with nothing only
/// where the catalog holds no topic with that id.
pub proof fn lemma_find_topic_searches_catalog(id: Seq<char>)
    ensures
        match find_topic(id) {
            Some(t) => t.id == id && all_topics().contains(t),
            None => forall|i: int| 0 <= i < all_topics().len() ==> all_topics()[i].id != id,
        },
{
    if id == GITHUB_SETUP_ID@ {
        assert(all_topics()[0] == github_setup_topic());
    }
}

/// Builds the step at position `i` of the GitHub topic.
fn build_github_setup_step(i: usize) -> (step: Step)
    requires
        i < 11,
    ensures
        step@ == github_setup_step(i as int),
{
    let mut suggested_questions: Vec<String> = Vec::new();
    let mut j: usize = 0;
    while j < 3
        invariant
            i < 11,
            j <= 3,
            suggested_questions@.len() == j,
            forall|k: int|
                0 <= k < j ==> (#[trigger] suggested_questions@[k])@
                    == GITHUB_SETUP_STEP_QUESTIONS[i as int][k]@,
        decreases 3 - j,
    {
        suggested_questions.push(GITHUB_SETUP_STEP_QUESTIONS[i][j].to_owned());
        j = j + 1;
    }
    let step = Step {
        title: GITHUB_SETUP_STEP_TITLES[i].to_owned(),
        prompt: GITHUB_SETUP_STEP_PROMPTS[i].to_owned(),
        suggested_questions,
    };
    assert(step@.suggested_questions =~= github_setup_step(i as int).suggested_questions);
    step
}

/// The topic on setting up GitHub: its id, title, description and opening
/// message, and its eleven steps in order.
pub fn get_github_setup_topic() -> (topic: Topic)
    ensures
        topic@ == github_setup_topic(),
{
    let mut steps: Vec<Step> = Vec::new();
    let mut i: usize = 0;
    while i < 11
        invariant
            i <= 11,
            steps@.len() == i,
            forall|k: int| 0 <= k < i ==> (#[trigger] steps@[k])@ == github_setup_step(k),
        decreases 11 - i,
    {
        steps.push(build_github_setup_step(i));
        i = i + 1;
    }
    let topic = Topic {
        id: GITHUB_SETUP_ID.to_owned(),
        title: GITHUB_SETUP_TITLE.to_owned(),
        description: GITHUB_SETUP_DESCRIPTION.to_owned(),
        steps,
        initial_message: GITHUB_SETUP_INITIAL_MESSAGE.to_owned(),
    };
    assert(topic@.steps =~= github_setup_topic().steps);
    topic
}

/// Every topic of the catalog, in its fixed order.
pub fn get_all_topics() -> (topics: Vec<Topic>)
    ensures
        topic_views(topics@) == all_topics(),
{
    let mut topics: Vec<Topic> = Vec::new();
    topics.push(get_github_setup_topic());
    assert(topic_views(topics@) =~= all_topics());
    topics
}

/// Looks a topic up by its id.
pub fn get_topic(id: &str) -> (found: Option<Topic>)
    ensures
        match found {
            Some(t) => find_topic(id@) == Some(t@),
            None => find_topic(id@) is None,
        },
{
    if same_text(id, GITHUB_SETUP_ID) {
        Some(get_github_setup_topic())
    } else {
        None
    }
}

} // verus!
