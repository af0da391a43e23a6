//! Insights: short pieces of advice shown to a user.

use crate::common::text::{copy_of, text_of};
use crate::common::Examples;
use vstd::prelude::*;
use vstd::string::StringExecFns;

verus! {

/// What an insight is about.
#[derive(Clone, Copy, Debug, PartialEq, Eq, Structural)]
pub enum InsightTypes {
    ProductRecommendation,
    Savings,
    Spending,
    Income,
    Goal,
    /// An insight that has not been generated yet.
    Incomplete,
}

/// An insight.
#[derive(Debug, PartialEq)]
pub struct Insight {
    pub id: Option<String>,
    pub title: String,
    pub description: String,
    pub insight_type: InsightTypes,
    pub dismissed: bool,
    pub image: Option<String>,
    pub generation_time: i64,
}

impl Insight {
    /// A fresh insight, generated at the moment `now`.
    pub fn new(
        id: Option<String>,
        title: String,
        description: String,
        insight_type: InsightTypes,
        image: Option<String>,
        now: i64,
    ) -> (insight: Insight)
        ensures
            insight == (Insight {
                id,
                title,
                description,
                insight_type,
                dismissed: false,
                image,
                generation_time: now,
            }),
    {
        Insight {
            id,
            title,
            description,
            insight_type,
            dismissed: false,
            image,
            generation_time: now,
        }
    }

    /// The insight that stands in until one has been generated.
    pub fn incomplete(now: i64) -> (insight: Insight)
        ensures
            insight.id is None,
            insight.title@ == ""@,
            insight.description@ == ""@,
            insight.insight_type == InsightTypes::Incomplete,
            !insight.dismissed,
            insight.image is None,
            insight.generation_time == now,
    {
        Insight {
            id: None,
            title: String::from_str(""),
            description: String::from_str(""),
            insight_type: InsightTypes::Incomplete,
            dismissed: false,
            image: None,
            generation_time: now,
        }
    }
}

impl Examples for Insight {
    type Output = Insight;

    fn examples(now: i64) -> (examples: Vec<Insight>)
        ensures
            examples@.len() == 2,
            examples@[0].title@ == "Wealthfront Cash Account"@,
            examples@[0].description@
                == "Consider a Wealthfront Cash Account to boost your savings APY (0.35%)."@,
            examples@[0].insight_type == InsightTypes::ProductRecommendation,
            text_of(examples@[0].image) == Some(
                "https://theme.zdassets.com/theme_assets/586236/49e4904c4910a8ebf63b67d41f9b98b6b0933275.png"@,
            ),
            examples@[1].title@ == "Savings Insight"@,
            examples@[1].description@
                == "You are saving more per month than 63% of users in your income bracket!"@,
            examples@[1].insight_type == InsightTypes::Savings,
            examples@[1].image is None,
            forall|i: int|
                0 <= i < 2 ==> !(#[trigger] examples@[i]).dismissed && examples@[i].id is None
                    && examples@[i].generation_time == now,
    {
        let mut examples: Vec<Insight> = Vec::new();
        examples.push(
            Insight::new(
                None,
                String::from_str("Wealthfront Cash Account"),
                String::from_str(
                    "Consider a Wealthfront Cash Account to boost your savings APY (0.35%).",
                ),
                InsightTypes::ProductRecommendation,
                Some(
                    String::from_str(
                        "https://theme.zdassets.com/theme_assets/586236/49e4904c4910a8ebf63b67d41f9b98b6b0933275.png",
                    ),
                ),
                now,
            ),
        );
        examples.push(
            Insight::new(
                None,
                String::from_str("Savings Insight"),
                String::from_str(
                    "You are saving more per month than 63% of users in your income bracket!",
                ),
                InsightTypes::Savings,
                None,
                now,
            ),
        );
        examples
    }
}

impl Clone for Insight {
    fn clone(&self) -> (copy: Insight)
        ensures
            copy == *self,
    {
        Insight {
            id: copy_of(&self.id),
            title: self.title.clone(),
            description: self.description.clone(),
            insight_type: self.insight_type,
            dismissed: self.dismissed,
            image: copy_of(&self.image),
            generation_time: self.generation_time,
        }
    }
}

} // verus!
